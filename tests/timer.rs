use tock::hardware::HardwareSlot;
use tock::result::{AlarmError, OtherError, TockError};
use tock::retrieve_hardware;
use tock::timer::{AlarmToken, CallbackId, Duration, Invocation, TimerState};

/// A kernel stand-in: one pending alarm, and a clock that advances by hand.
struct SimulatedKernel {
    now: u64,
    pending: Option<(AlarmToken, u64)>,
}

impl SimulatedKernel {
    fn advance(&mut self, units: u64) -> Option<(AlarmToken, usize, usize)> {
        self.now += units;
        match self.pending {
            Some((token, at)) if at <= self.now => {
                self.pending = None;
                Some((token, at as usize, 0))
            }
            _ => None,
        }
    }
}

#[test]
fn take_register_arm_and_fire_once() {
    let mut slot = HardwareSlot::new();
    let set = retrieve_hardware(&mut slot);
    assert!(set.is_ok());
    assert!(matches!(
        retrieve_hardware(&mut slot),
        Err(TockError::Other(OtherError::DriverAlreadyTaken))
    ));
    let mut context = set.ok().unwrap().timer_context;
    let c = CallbackId { id: 1 };
    let handle = context.register_callback(c);
    let request = context.arm(&handle, Duration::from_ms(2000));
    assert!(request.is_ok());
    let request = request.ok().unwrap();
    assert_eq!(request.duration.ms, 2000);

    let mut kernel = SimulatedKernel { now: 0, pending: Some((request.token, 2000)) };
    let mut invocations = Vec::new();
    for _ in 0..10 {
        if let Some((token, a0, a1)) = kernel.advance(500) {
            if let Some(inv) = context.on_fire(token, a0, a1) {
                invocations.push(inv);
            }
        }
    }
    assert_eq!(invocations, vec![Invocation { callback: c, arg0: 2000, arg1: 0 }]);
    assert_eq!(context.state(), TimerState::Registered { callback: c });
    assert_eq!(context.on_fire(request.token, 2000, 0), None);
}

#[test]
fn fire_is_dropped_after_disarm() {
    let mut context = tock::retrieve_hardware_unsafe().timer_context;
    let c = CallbackId { id: 3 };
    let handle = context.register_callback(c);
    let request = context.arm(&handle, Duration::from_ms(10)).ok().unwrap();
    assert_eq!(context.disarm(handle), Some(request.token));
    assert_eq!(context.state(), TimerState::Unregistered);
    assert_eq!(context.on_fire(request.token, 10, 0), None);
    assert_eq!(context.state(), TimerState::Unregistered);
}

#[test]
fn fire_with_other_token_is_dropped() {
    let mut context = tock::retrieve_hardware_unsafe().timer_context;
    let handle = context.register_callback(CallbackId { id: 4 });
    let request = context.arm(&handle, Duration::from_ms(5)).ok().unwrap();
    let other = AlarmToken { value: request.token.value + 1 };
    assert_eq!(context.on_fire(other, 1, 2), None);
    assert_eq!(
        context.on_fire(request.token, 1, 2),
        Some(Invocation { callback: CallbackId { id: 4 }, arg0: 1, arg1: 2 })
    );
}

#[test]
fn reregistering_drops_the_old_alarm() {
    let mut context = tock::retrieve_hardware_unsafe().timer_context;
    let old = context.register_callback(CallbackId { id: 1 });
    let first = context.arm(&old, Duration::from_ms(100)).ok().unwrap();
    let new = context.register_callback(CallbackId { id: 2 });
    assert_eq!(context.on_fire(first.token, 100, 0), None);
    assert_eq!(
        context.arm(&old, Duration::from_ms(100)),
        Err(TockError::Other(OtherError::TimerNotRegistered))
    );
    let second = context.arm(&new, Duration::from_ms(100)).ok().unwrap();
    assert_ne!(second.token, first.token);
    assert_eq!(
        context.on_fire(second.token, 7, 8),
        Some(Invocation { callback: CallbackId { id: 2 }, arg0: 7, arg1: 8 })
    );
}

#[test]
fn rearming_issues_fresh_tokens() {
    let mut context = tock::retrieve_hardware_unsafe().timer_context;
    let handle = context.register_callback(CallbackId { id: 9 });
    let a = context.arm(&handle, Duration::from_ms(1)).ok().unwrap();
    assert_eq!(a.token, AlarmToken { value: 0 });
    let b = context.arm(&handle, Duration::from_ms(1)).ok().unwrap();
    assert_eq!(b.token, AlarmToken { value: 1 });
    assert_eq!(context.on_fire(a.token, 0, 0), None);
    assert!(context.on_fire(b.token, 0, 0).is_some());
    let c = context.arm(&handle, Duration::from_ms(1)).ok().unwrap();
    assert_eq!(c.token, AlarmToken { value: 2 });
}

#[test]
fn kernel_rejection_is_reported_and_idles_the_slot() {
    let mut context = tock::retrieve_hardware_unsafe().timer_context;
    let c = CallbackId { id: 5 };
    let handle = context.register_callback(c);
    let request = context.arm(&handle, Duration::from_ms(50)).ok().unwrap();
    let e = context.arm_rejected(&request, -2);
    assert_eq!(e, TockError::Alarm(AlarmError { return_code: -2 }));
    assert_eq!(context.state(), TimerState::Registered { callback: c });
    assert_eq!(context.on_fire(request.token, 50, 0), None);
}

#[test]
fn arming_without_registration_fails() {
    let mut context = tock::retrieve_hardware_unsafe().timer_context;
    let handle = context.register_callback(CallbackId { id: 6 });
    assert_eq!(context.disarm(handle), None);
    let again = context.register_callback(CallbackId { id: 6 });
    let _ = context.disarm(again);
    let stale = context.register_callback(CallbackId { id: 8 });
    let _ = context.register_callback(CallbackId { id: 6 });
    assert_eq!(
        context.arm(&stale, Duration::from_ms(1)),
        Err(TockError::Other(OtherError::TimerNotRegistered))
    );
    assert_eq!(stale.callback(), CallbackId { id: 8 });
}
