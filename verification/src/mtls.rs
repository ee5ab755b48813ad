//! Decision logic of the mutual-TLS client-certificate request guard.
//!
//! A connection made with mutual TLS may carry the client's certificate
//! chain. The guard inspects what the connection offered: when no
//! certificates accompanied the request, or they held no chain data, the
//! guard forwards the request with an unauthorized status; when chain data
//! was present but did not parse, the guard fails with that status and the
//! parse error; otherwise it succeeds with the parsed certificate.

use vstd::prelude::*;

verus! {

/// HTTP status code carried by every forward or failure of the guard.
pub const UNAUTHORIZED: u16 = 401;

/// What a request guard resolves to: success with a value, a forward to the
/// next matching handler carrying a status, or a failure carrying a status
/// and an error.
#[derive(Debug, PartialEq, Eq)]
pub enum GuardOutcome<T, E> {
    Success(T),
    Forward(u16),
    Error(u16, E),
}

/// Succeed with the value when one is present; forward with `status`
/// otherwise.
pub fn or_forward<T, E>(value: Option<T>, status: u16) -> (o: GuardOutcome<T, E>)
    ensures
        match value {
            Some(v) => o == GuardOutcome::<T, E>::Success(v),
            None => o == GuardOutcome::<T, E>::Forward(status),
        },
{
    match value {
        Some(v) => GuardOutcome::Success(v),
        None => GuardOutcome::Forward(status),
    }
}

/// Succeed with the value when the result is `Ok`; fail with `status` and
/// the error otherwise.
pub fn or_error<T, E>(result: Result<T, E>, status: u16) -> (o: GuardOutcome<T, E>)
    ensures
        match result {
            Ok(v) => o == GuardOutcome::<T, E>::Success(v),
            Err(e) => o == GuardOutcome::<T, E>::Error(status, e),
        },
{
    match result {
        Ok(v) => GuardOutcome::Success(v),
        Err(e) => GuardOutcome::Error(status, e),
    }
}

/// The certificate guard's decision, over what the connection offered.
///
/// `chain` is `None` when the request carried no client certificates,
/// `Some(None)` when certificates were present but held no chain data, and
/// `Some(Some(r))` when chain data was present and parsing it gave `r`.
/// The guard forwards with an unauthorized status when no chain data was
/// offered, fails with that status and the parse error when the data did
/// not parse, and succeeds with the parsed certificate otherwise.
pub fn certificate_outcome<C, E>(chain: Option<Option<Result<C, E>>>) -> (o: GuardOutcome<C, E>)
    ensures
        match chain {
            None => o == GuardOutcome::<C, E>::Forward(UNAUTHORIZED),
            Some(None) => o == GuardOutcome::<C, E>::Forward(UNAUTHORIZED),
            Some(Some(Ok(c))) => o == GuardOutcome::<C, E>::Success(c),
            Some(Some(Err(e))) => o == GuardOutcome::<C, E>::Error(UNAUTHORIZED, e),
        },
{
    let certs = match or_forward::<Option<Result<C, E>>, E>(chain, UNAUTHORIZED) {
        GuardOutcome::Success(c) => c,
        GuardOutcome::Forward(s) => {
            return GuardOutcome::Forward(s);
        }
        GuardOutcome::Error(s, e) => {
            return GuardOutcome::Error(s, e);
        }
    };
    let parsed = match or_forward::<Result<C, E>, E>(certs, UNAUTHORIZED) {
        GuardOutcome::Success(p) => p,
        GuardOutcome::Forward(s) => {
            return GuardOutcome::Forward(s);
        }
        GuardOutcome::Error(s, e) => {
            return GuardOutcome::Error(s, e);
        }
    };
    or_error(parsed, UNAUTHORIZED)
}

} // verus!
