//! The credential provider.
//!
//! A transfer authorizes its storage calls with a time-scoped identity:
//! a region plus an assumed-role session. Exchanging the long-lived
//! role reference for that session is the token service's work and
//! happens outside this library; the provider here turns the service's
//! verdict into either a session descriptor or a `CredentialError`,
//! never anything unclassified. A denial is final for the attempt: it
//! is surfaced to the caller, never silently downgraded.

use vstd::prelude::*;
use crate::errors::{ErrorKind, StorageError};

verus! {

/// A region-scoped, role-assumed session descriptor. Credentials are
/// consumed by the storage client facade, never persisted, and never
/// reused across regions.
#[derive(Debug, Clone)]
pub struct Credentials {
    pub region: String,
    pub role_arn: String,
    pub session_name: String,
}

/// The token service's verdict on one role assumption, as observed by
/// the surrounding application: either the role was assumed, or it was
/// not, with the service's diagnostic text.
#[derive(Debug)]
pub enum SessionGrant {
    Granted,
    Denied(String),
}

/// Builds the session descriptor for a transfer attempt.
///
/// A granted assumption yields credentials scoped to exactly the
/// requested region, role, and session name. A denial — a malformed
/// ARN, a rejected trust policy, or a network failure reaching the
/// token service — always yields a `CredentialError` carrying the
/// service's diagnostic text, whatever operation triggered the
/// acquisition.
pub fn acquire(
    region: String,
    role_arn: String,
    session_name: String,
    grant: SessionGrant,
) -> (r: Result<Credentials, StorageError>)
    ensures
        grant is Granted ==> r is Ok,
        r is Ok ==> {
            &&& r->Ok_0.region@ == region@
            &&& r->Ok_0.role_arn@ == role_arn@
            &&& r->Ok_0.session_name@ == session_name@
        },
        grant matches SessionGrant::Denied(d) ==> {
            &&& r is Err
            &&& r->Err_0.kind == ErrorKind::CredentialError
            &&& r->Err_0.detail@ == d@
        },
        r is Err ==> r->Err_0.kind == ErrorKind::CredentialError,
{
    match grant {
        SessionGrant::Granted => Ok(Credentials { region, role_arn, session_name }),
        SessionGrant::Denied(detail) => Err(StorageError::new(ErrorKind::CredentialError, detail)),
    }
}

} // verus!
