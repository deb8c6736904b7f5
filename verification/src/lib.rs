use vstd::prelude::*;

pub mod api;
pub mod context;
pub mod controller;
pub mod error;
pub mod kvmap;
pub mod operator;
pub mod operator_core;
pub mod raft;
pub mod raft_support;
pub mod text;
pub mod time;
pub mod types;

verus! {
} // verus!
