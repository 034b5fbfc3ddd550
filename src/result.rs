use vstd::prelude::*;

verus! {

/// Failures that are neither kernel rejections nor faults of a syscall.
#[derive(Clone, Copy, Debug, PartialEq, Eq, Structural)]
pub enum OtherError {
    /// The hardware set has already been handed out.
    DriverAlreadyTaken,
    /// A timer handle was used after its callback stopped being the registered one.
    TimerNotRegistered,
    /// Every alarm token has been issued once; no fresh one is left.
    AlarmTokensExhausted,
}

/// The kernel rejected an alarm request with the given (negative) return code.
#[derive(Clone, Copy, Debug, PartialEq, Eq, Structural)]
pub struct AlarmError {
    pub return_code: i32,
}

/// Every error that the core reports to its caller.
#[derive(Clone, Copy, Debug, PartialEq, Eq, Structural)]
pub enum TockError {
    Alarm(AlarmError),
    Other(OtherError),
}

} // verus!
