//! Bounded-retry acquisition of the raw network device.
//!
//! The caller tries to open the device; after each failure it asks the
//! acquirer whether to wait and try again or to give up.
use vstd::prelude::*;

use crate::session::HttpError;

verus! {

/// The most attempts made to open the device.
pub const MAX_ATTEMPTS: u32 = 3;

/// The wait between two attempts, in milliseconds.
pub const BACKOFF_MILLIS: u64 = 1000;

/// Counts failed attempts to open the device.
#[derive(Clone, Copy, Debug, PartialEq, Eq, Structural)]
pub struct DeviceAcquirer {
    failures: u32,
}

impl View for DeviceAcquirer {
    type V = nat;

    /// The number of failed attempts so far.
    closed spec fn view(&self) -> nat {
        self.failures as nat
    }
}

impl DeviceAcquirer {
    /// An acquirer before the first attempt.
    pub fn new() -> (r: Self)
        ensures
            r@ == 0,
    {
        DeviceAcquirer { failures: 0 }
    }

    /// The number of failed attempts so far.
    pub fn failures(&self) -> (r: u32)
        ensures
            r == self@,
    {
        self.failures
    }

    /// Records a failed attempt. Gives the wait before the next attempt,
    /// or `DeviceUnavailable` once `MAX_ATTEMPTS` attempts have failed.
    pub fn record_failure(&mut self) -> (r: Result<u64, HttpError>)
        ensures
            final(self)@ == if old(self)@ < MAX_ATTEMPTS {
                old(self)@ + 1
            } else {
                old(self)@
            },
            r == if final(self)@ < MAX_ATTEMPTS {
                Ok::<u64, HttpError>(BACKOFF_MILLIS)
            } else {
                Err::<u64, HttpError>(HttpError::DeviceUnavailable)
            },
    {
        if self.failures < MAX_ATTEMPTS {
            self.failures = self.failures + 1;
        }
        if self.failures < MAX_ATTEMPTS {
            Ok(BACKOFF_MILLIS)
        } else {
            Err(HttpError::DeviceUnavailable)
        }
    }
}

} // verus!
