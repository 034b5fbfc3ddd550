//! The timer's callback slot. Execution is single-threaded and cooperative, so
//! the slot needs no lock; what it needs is a clear rule for replacing a
//! registration. The rule here: every arm issues a fresh token, and a fire
//! event is delivered only when it carries the token of the alarm that is armed
//! now. Registering anew, disarming, or arming again therefore drops the fire
//! event of any alarm armed before.
//!
//! The core never calls the kernel itself: `arm` hands back the request to
//! issue, and the dispatcher that receives a completion hands it to `on_fire`,
//! which names the callback to invoke.
use vstd::prelude::*;
use crate::result::{OtherError, TockError, AlarmError};

verus! {

/// Identifies a callback that the application keeps on its side.
#[derive(Clone, Copy, Debug, PartialEq, Eq, Structural)]
pub struct CallbackId {
    pub id: u32,
}

/// Tags one alarm request, so that its completion is matched back to it.
#[derive(Clone, Copy, Debug, PartialEq, Eq, Structural)]
pub struct AlarmToken {
    pub value: u64,
}

/// A span of time, in milliseconds.
#[derive(Clone, Copy, Debug, PartialEq, Eq, Structural)]
pub struct Duration {
    pub ms: u32,
}

impl Duration {
    pub fn from_ms(ms: u32) -> (r: Duration)
        ensures
            r.ms == ms,
    {
        Duration { ms }
    }
}

/// Where the callback slot stands.
#[derive(Clone, Copy, Debug, PartialEq, Eq, Structural)]
pub enum TimerState {
    Unregistered,
    /// A callback is registered and no alarm is armed for it.
    Registered { callback: CallbackId },
    /// A callback is registered and the alarm tagged `token` is armed for it.
    Armed { callback: CallbackId, token: AlarmToken },
}

/// The request that the kernel is to be asked for.
#[derive(Clone, Copy, Debug, PartialEq, Eq, Structural)]
pub struct AlarmRequest {
    pub token: AlarmToken,
    pub duration: Duration,
}

/// The callback to invoke, and the arguments of the fire event.
#[derive(Clone, Copy, Debug, PartialEq, Eq, Structural)]
pub struct Invocation {
    pub callback: CallbackId,
    pub arg0: usize,
    pub arg1: usize,
}

/// Mathematical model of a `DriverContext`: the slot, and how many tokens
/// have been issued so far.
pub struct TimerModel {
    pub state: TimerState,
    pub issued: nat,
}

/// The callback registered in `s`, if any.
pub open spec fn registered_callback(s: TimerState) -> Option<CallbackId> {
    match s {
        TimerState::Unregistered => None,
        TimerState::Registered { callback } => Some(callback),
        TimerState::Armed { callback, .. } => Some(callback),
    }
}

/// The slot after `c` is registered: any earlier registration is replaced.
pub open spec fn spec_register(m: TimerModel, c: CallbackId) -> TimerModel {
    TimerModel { state: TimerState::Registered { callback: c }, issued: m.issued }
}

/// Outcome of arming through a handle for `c`: the slot afterwards and the
/// token issued, or the error.
pub open spec fn spec_arm(m: TimerModel, c: CallbackId) -> Result<(TimerModel, AlarmToken), TockError> {
    if registered_callback(m.state) != Some(c) {
        Err(TockError::Other(OtherError::TimerNotRegistered))
    } else if m.issued >= u64::MAX {
        Err(TockError::Other(OtherError::AlarmTokensExhausted))
    } else {
        let t = AlarmToken { value: m.issued as u64 };
        Ok((TimerModel { state: TimerState::Armed { callback: c, token: t }, issued: m.issued + 1 }, t))
    }
}

/// Outcome of a fire event tagged `t`: the slot afterwards and the callback to
/// invoke, if the event belongs to the alarm armed now.
pub open spec fn spec_fire(m: TimerModel, t: AlarmToken) -> (TimerModel, Option<CallbackId>) {
    match m.state {
        TimerState::Armed { callback, token } if token == t => (
            TimerModel { state: TimerState::Registered { callback }, issued: m.issued },
            Some(callback),
        ),
        _ => (m, None),
    }
}

/// Outcome of disarming through a handle for `c`: when `c` is the registered
/// callback, the slot empties and the token of its armed alarm, if any, comes
/// back for cancelling; otherwise nothing changes.
pub open spec fn spec_disarm(m: TimerModel, c: CallbackId) -> (TimerModel, Option<AlarmToken>) {
    if registered_callback(m.state) == Some(c) {
        (
            TimerModel { state: TimerState::Unregistered, issued: m.issued },
            match m.state {
                TimerState::Armed { token, .. } => Some(token),
                _ => None,
            },
        )
    } else {
        (m, None)
    }
}

/// Outcome of the kernel's refusal of the request tagged `t`: the slot goes
/// back to idle if that alarm is still the armed one.
pub open spec fn spec_reject(m: TimerModel, t: AlarmToken) -> TimerModel {
    match m.state {
        TimerState::Armed { callback, token } if token == t => TimerModel {
            state: TimerState::Registered { callback },
            issued: m.issued,
        },
        _ => m,
    }
}

/// Proof that the holder registered `callback`; it arms and disarms the alarm.
pub struct TimerHandle {
    callback: CallbackId,
}

impl TimerHandle {
    pub closed spec fn spec_callback(&self) -> CallbackId {
        self.callback
    }

    pub fn callback(&self) -> (r: CallbackId)
        ensures
            r == self.spec_callback(),
    {
        self.callback
    }
}

/// The per-process slot that connects one callback to kernel alarm events.
pub struct DriverContext {
    active_timer: TimerState,
    next_token: u64,
}

impl View for DriverContext {
    type V = TimerModel;

    closed spec fn view(&self) -> TimerModel {
        TimerModel { state: self.active_timer, issued: self.next_token as nat }
    }
}

impl DriverContext {
    /// Every armed alarm carries a token that has been issued.
    pub open spec fn wf(&self) -> bool {
        &&& self@.issued <= u64::MAX
        &&& self@.state matches TimerState::Armed { token, .. } ==> token.value < self@.issued
    }

    pub(crate) fn new() -> (r: DriverContext)
        ensures
            r@.state == TimerState::Unregistered,
            r@.issued == 0,
            r.wf(),
    {
        DriverContext { active_timer: TimerState::Unregistered, next_token: 0 }
    }

    /// The current state of the slot.
    pub fn state(&self) -> (r: TimerState)
        ensures
            r == self@.state,
    {
        self.active_timer
    }

    /// Stores `callback` in the slot, replacing any earlier registration.
    pub fn register_callback(&mut self, callback: CallbackId) -> (h: TimerHandle)
        requires
            old(self).wf(),
        ensures
            final(self)@ == spec_register(old(self)@, callback),
            final(self).wf(),
            h.spec_callback() == callback,
    {
        self.active_timer = TimerState::Registered { callback };
        TimerHandle { callback }
    }

    /// Arms the alarm for the handle's callback with a fresh token, and returns
    /// the request to issue to the kernel. Fails when the handle's callback is
    /// no longer the registered one, or when no fresh token is left.
    pub fn arm(&mut self, handle: &TimerHandle, duration: Duration) -> (r: Result<AlarmRequest, TockError>)
        requires
            old(self).wf(),
        ensures
            final(self).wf(),
            match spec_arm(old(self)@, handle.spec_callback()) {
                Ok((m, t)) => final(self)@ == m && r == Ok::<AlarmRequest, TockError>(
                    AlarmRequest { token: t, duration },
                ),
                Err(e) => final(self)@ == old(self)@ && r == Err::<AlarmRequest, TockError>(e),
            },
    {
        let registered = match self.active_timer {
            TimerState::Unregistered => false,
            TimerState::Registered { callback } => callback == handle.callback,
            TimerState::Armed { callback, .. } => callback == handle.callback,
        };
        if !registered {
            return Err(TockError::Other(OtherError::TimerNotRegistered));
        }
        if self.next_token == u64::MAX {
            return Err(TockError::Other(OtherError::AlarmTokensExhausted));
        }
        let token = AlarmToken { value: self.next_token };
        self.active_timer = TimerState::Armed { callback: handle.callback, token };
        self.next_token = self.next_token + 1;
        Ok(AlarmRequest { token, duration })
    }

    /// Records that the kernel refused `request` with `return_code`, and
    /// returns the error to report.
    pub fn arm_rejected(&mut self, request: &AlarmRequest, return_code: i32) -> (e: TockError)
        requires
            old(self).wf(),
        ensures
            final(self).wf(),
            final(self)@ == spec_reject(old(self)@, request.token),
            e == TockError::Alarm(AlarmError { return_code }),
    {
        match self.active_timer {
            TimerState::Armed { callback, token } => {
                if token == request.token {
                    self.active_timer = TimerState::Registered { callback };
                }
            },
            _ => {},
        }
        TockError::Alarm(AlarmError { return_code })
    }

    /// Empties the slot when the handle's callback is the registered one, and
    /// returns the token of the alarm left in flight, for cancelling.
    pub fn disarm(&mut self, handle: TimerHandle) -> (r: Option<AlarmToken>)
        requires
            old(self).wf(),
        ensures
            final(self).wf(),
            (final(self)@, r) == spec_disarm(old(self)@, handle.spec_callback()),
    {
        match self.active_timer {
            TimerState::Unregistered => None,
            TimerState::Registered { callback } => {
                if callback == handle.callback {
                    self.active_timer = TimerState::Unregistered;
                }
                None
            },
            TimerState::Armed { callback, token } => {
                if callback == handle.callback {
                    self.active_timer = TimerState::Unregistered;
                    Some(token)
                } else {
                    None
                }
            },
        }
    }

    /// Dispatches a fire event: names the callback to invoke with the event's
    /// arguments when `token` tags the alarm armed now, and leaves the
    /// registration idle; otherwise drops the event without effect.
    pub fn on_fire(&mut self, token: AlarmToken, arg0: usize, arg1: usize) -> (r: Option<Invocation>)
        requires
            old(self).wf(),
        ensures
            final(self).wf(),
            final(self)@ == spec_fire(old(self)@, token).0,
            r == (match spec_fire(old(self)@, token).1 {
                Some(c) => Some(Invocation { callback: c, arg0, arg1 }),
                None => None,
            }),
    {
        match self.active_timer {
            TimerState::Armed { callback, token: armed } => {
                if armed == token {
                    self.active_timer = TimerState::Registered { callback };
                    Some(Invocation { callback, arg0, arg1 })
                } else {
                    None
                }
            },
            _ => None,
        }
    }
}

/// Registering a callback and arming an alarm for it issues a token; the fire
/// event carrying that token names the callback, and no fire event after it
/// names any callback until the alarm is armed again.
pub proof fn lemma_armed_alarm_fires_once(m: TimerModel, c: CallbackId)
    requires
        m.issued < u64::MAX,
    ensures
        spec_arm(spec_register(m, c), c) matches Ok((armed, t)) && {
            &&& t.value == m.issued
            &&& spec_fire(armed, t).1 == Some(c)
            &&& forall|t2: AlarmToken| (#[trigger] spec_fire(spec_fire(armed, t).0, t2)).1 is None
        },
{
}

/// Once a registration is disarmed, a late fire event, whatever its token,
/// names no callback and changes nothing.
pub proof fn lemma_disarmed_fire_dropped(m: TimerModel, c: CallbackId, t: AlarmToken)
    requires
        registered_callback(m.state) == Some(c),
    ensures
        spec_fire(spec_disarm(m, c).0, t) == (spec_disarm(m, c).0, None::<CallbackId>),
{
}

} // verus!
