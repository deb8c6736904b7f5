//! Noticing that certificate files changed: the newest modification time
//! of the certificate, key and CA files is compared with the one last
//! seen. Times are nanoseconds since the epoch.
use crate::raft::config::TlsConfig;
use vstd::prelude::*;

verus! {

/// The later of two optional times; a time wins over none.
pub open spec fn later(a: Option<u128>, b: Option<u128>) -> Option<u128> {
    match (a, b) {
        (Some(x), Some(y)) => Some(if x >= y { x } else { y }),
        (Some(x), None) => Some(x),
        (None, y) => y,
    }
}

/// The later of two optional times.
pub fn later_of(a: Option<u128>, b: Option<u128>) -> (r: Option<u128>)
    ensures
        r == later(a, b),
{
    match (a, b) {
        (Some(x), Some(y)) => Some(if x >= y { x } else { y }),
        (Some(x), None) => Some(x),
        (None, y) => y,
    }
}

/// The newest modification time of the certificate, the key and the CA
/// certificate, among those that could be read.
pub fn latest_mtime(cert: Option<u128>, key: Option<u128>, ca_cert: Option<u128>) -> (r: Option<
    u128,
>)
    ensures
        r == later(later(cert, key), ca_cert),
{
    later_of(later_of(cert, key), ca_cert)
}

/// The files whose modification times are watched: the certificate, the
/// key and the CA certificate, as far as they are configured.
pub fn watched_files(tls: &TlsConfig) -> (r: (Option<&String>, Option<&String>, Option<&String>))
    ensures
        r.0 == match tls.cert {
            Some(p) => Some(&p),
            None => None::<&String>,
        },
        r.1 == match tls.key {
            Some(p) => Some(&p),
            None => None::<&String>,
        },
        r.2 == match tls.ca_cert {
            Some(p) => Some(&p),
            None => None::<&String>,
        },
{
    (tls.cert.as_ref(), tls.key.as_ref(), tls.ca_cert.as_ref())
}

/// The modification time last seen.
#[derive(Clone, Copy, Debug, PartialEq, Eq, Structural)]
pub struct CertWatch {
    pub last_modified: Option<u128>,
}

impl CertWatch {
    /// Nothing seen yet.
    pub fn new() -> (w: Self)
        ensures
            w.last_modified is None,
    {
        CertWatch { last_modified: None }
    }

    /// Records the first reading of the files' modification time.
    pub fn initialize(&mut self, current: Option<u128>)
        ensures
            final(self).last_modified == current,
    {
        self.last_modified = current;
    }

    /// Takes in a new reading; returns whether the certificates must be
    /// reloaded, as `check_outcome` says.
    pub fn check(&mut self, current: Option<u128>) -> (reload: bool)
        ensures
            (final(self).last_modified, reload) == check_outcome(old(self).last_modified, current),
    {
        match (current, self.last_modified) {
            (Some(c), Some(l)) => {
                if c > l {
                    self.last_modified = Some(c);
                    true
                } else {
                    false
                }
            },
            (Some(c), None) => {
                self.last_modified = Some(c);
                false
            },
            (None, _) => false,
        }
    }
}

/// The time last seen after a reading, and whether the certificates must
/// be reloaded: they must when the files are newer than last seen, which
/// then becomes the time last seen; a first reading is recorded without a
/// reload; otherwise nothing changes.
pub open spec fn check_outcome(last: Option<u128>, current: Option<u128>) -> (Option<u128>, bool) {
    match (current, last) {
        (Some(c), Some(l)) => if c > l {
            (Some(c), true)
        } else {
            (last, false)
        },
        (Some(c), None) => (Some(c), false),
        (None, _) => (last, false),
    }
}

/// The time last seen never goes back, a reload happens only on a newer
/// reading than one already seen, and a reading no newer than the last
/// one changes nothing.
pub proof fn law_last_seen_never_decreases(last: Option<u128>, current: Option<u128>)
    ensures
        last matches Some(l) ==> (check_outcome(last, current).0 matches Some(a) && a >= l),
        check_outcome(last, current).1 ==> (last matches Some(l) && current matches Some(c) && c
            > l),
        (last matches Some(l) && current matches Some(c) && c <= l) ==> check_outcome(
            last,
            current,
        ) == (last, false),
{
}

} // verus!
