//! Platform detection: deciding whether this host is a TDX confidential VM
//! with a virtual TPM.
//!
//! The probe itself reads platform state and may fail; detection never does.
//! The decision half lives here, verified: a successful probe reports its
//! answer, and every probe failure is absorbed into `false`, since a caller
//! deciding whether to register this attester cannot tell a failed probe from
//! "not this platform". The suppressed cause stays available to the driver for
//! diagnostics; it is no part of the boolean answer.

use vstd::prelude::*;

verus! {

/// Maps the outcome of the platform-capability probe to the public detection
/// boolean. Total: it returns an answer for every probe outcome.
pub fn detection_from_probe(probe: Result<bool, String>) -> (r: bool)
    ensures
        probe is Ok ==> r == probe->Ok_0,
        probe is Err ==> r == false,
{
    match probe {
        Ok(b) => b,
        Err(_) => false,
    }
}

} // verus!
