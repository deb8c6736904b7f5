//! Batch workloads (`batch/v1`).
use crate::api::core_v1::PodTemplateSpec;
use crate::api::meta::ObjectMeta;
use vstd::prelude::*;

verus! {

#[derive(Clone, Debug)]
pub struct JobSpec {
    pub backoff_limit: Option<i32>,
    pub completions: Option<i32>,
    pub parallelism: Option<i32>,
    pub active_deadline_seconds: Option<i64>,
    pub ttl_seconds_after_finished: Option<i32>,
    pub template: PodTemplateSpec,
}

#[derive(Clone, Debug)]
pub struct Job {
    pub metadata: ObjectMeta,
    pub spec: Option<JobSpec>,
}

/// The job part of a cron job; its metadata is left unset.
#[derive(Clone, Debug)]
pub struct JobTemplateSpec {
    pub spec: Option<JobSpec>,
}

#[derive(Clone, Debug)]
pub struct CronJobSpec {
    pub schedule: String,
    pub concurrency_policy: Option<String>,
    pub suspend: Option<bool>,
    pub successful_jobs_history_limit: Option<i32>,
    pub failed_jobs_history_limit: Option<i32>,
    pub job_template: JobTemplateSpec,
}

#[derive(Clone, Debug)]
pub struct CronJob {
    pub metadata: ObjectMeta,
    pub spec: Option<CronJobSpec>,
}

} // verus!
