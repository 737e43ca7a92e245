//! Tick-loop driver: the lifecycle state machine that hooks and unhooks
//! the target, runs the per-tick value update with its rotation, and
//! decides which timer action a tick returns from what the guest
//! answered. Invoking the guest itself is the embedder's part; every
//! decision stands here.
use crate::environment::Environment;
use crate::pointer::kind_of_value;
use crate::process::Process;
use vstd::prelude::*;

verus! {

/// State of the embedding timer, set by the embedder, read each tick.
#[derive(Clone, Copy, PartialEq, Eq, Structural, Debug)]
pub enum TimerState {
    NotRunning,
    Running,
    Finished,
}

/// What a tick asks the embedding timer to do.
#[derive(Clone, Copy, PartialEq, Eq, Structural, Debug)]
pub enum TimerAction {
    Start,
    Split,
    Reset,
}

/// How a tick's hook-and-update phase ended.
#[derive(Clone, Copy, PartialEq, Eq, Structural, Debug)]
pub enum TickOutcome {
    /// No target is hooked and none could be: the tick returns no action.
    NotHooked,
    /// A hooked target was lost this tick: the guest's optional
    /// `disconnected` entry point runs once, then the tick returns no
    /// action.
    Disconnected,
    /// Values are up to date: the guest's per-tick entry points run.
    Ready,
}

/// The action a tick returns, given the timer state and what the guest
/// answered where it exports the entry point (`None` where it does not).
/// Not running: a nonzero `should_start` starts. Running: a nonzero
/// `should_split` splits, else a nonzero `should_reset` resets. Finished:
/// a nonzero `should_reset` resets. Only the first action in this order
/// is returned.
pub open spec fn spec_decide(
    state: TimerState,
    should_start: Option<i32>,
    should_split: Option<i32>,
    should_reset: Option<i32>,
) -> Option<TimerAction> {
    match state {
        TimerState::NotRunning => if should_start matches Some(v) && v != 0 {
            Some(TimerAction::Start)
        } else {
            None
        },
        TimerState::Running => if should_split matches Some(v) && v != 0 {
            Some(TimerAction::Split)
        } else if should_reset matches Some(v) && v != 0 {
            Some(TimerAction::Reset)
        } else {
            None
        },
        TimerState::Finished => if should_reset matches Some(v) && v != 0 {
            Some(TimerAction::Reset)
        } else {
            None
        },
    }
}

/// Decides the tick's action from the guest's answers; exactly
/// `spec_decide`.
pub fn decide_action(
    state: TimerState,
    should_start: Option<i32>,
    should_split: Option<i32>,
    should_reset: Option<i32>,
) -> (r: Option<TimerAction>)
    ensures
        r == spec_decide(state, should_start, should_split, should_reset),
{
    match state {
        TimerState::NotRunning => match should_start {
            Some(v) => if v != 0 {
                Some(TimerAction::Start)
            } else {
                None
            },
            None => None,
        },
        TimerState::Running => match should_split {
            Some(v) if v != 0 => Some(TimerAction::Split),
            _ => match should_reset {
                Some(v) => if v != 0 {
                    Some(TimerAction::Reset)
                } else {
                    None
                },
                None => None,
            },
        },
        TimerState::Finished => match should_reset {
            Some(v) => if v != 0 {
                Some(TimerAction::Reset)
            } else {
                None
            },
            None => None,
        },
    }
}

/// In the running state, when the guest asks for both a split and a
/// reset in the same tick, the split wins: it is checked first, whatever
/// `should_start` answered.
pub proof fn lemma_split_precedes_reset(
    should_start: Option<i32>,
    split_val: i32,
    reset_val: i32,
)
    requires
        split_val != 0,
    ensures
        spec_decide(TimerState::Running, should_start, Some(split_val), Some(reset_val)) == Some(
            TimerAction::Split,
        ),
{
}

/// The tick-loop driver's state: the environment, the embedder-set timer
/// state, and the last loading answer the guest gave.
pub struct Driver {
    /// The runtime's environment.
    pub env: Environment,
    /// Set by the embedder between ticks.
    pub timer_state: TimerState,
    /// The guest's last `is_loading` answer, if it ever answered.
    pub is_loading_val: Option<bool>,
}

impl Driver {
    /// A fresh driver: a fresh environment, timer not running, no
    /// loading answer yet.
    pub fn new() -> (d: Driver)
        ensures
            d.env.process_name@.len() == 0,
            d.env.pointer_paths@.len() == 0,
            d.env.process is None,
            d.env.wf(),
            d.timer_state == TimerState::NotRunning,
            d.is_loading_val is None,
    {
        Driver {
            env: Environment::new(),
            timer_state: TimerState::NotRunning,
            is_loading_val: None,
        }
    }

    /// Sets the timer state the next ticks will decide against.
    pub fn set_state(&mut self, state: TimerState)
        ensures
            final(self).timer_state == state,
            final(self).env == old(self).env,
            final(self).is_loading_val == old(self).is_loading_val,
    {
        self.timer_state = state;
    }

    /// The guest's last `is_loading` answer.
    pub fn is_loading(&self) -> (r: Option<bool>)
        ensures
            r == self.is_loading_val,
    {
        self.is_loading_val
    }

    /// Records the guest's `is_loading` answer for this tick: nonzero
    /// means loading.
    pub fn record_is_loading(&mut self, val: i32)
        ensures
            final(self).is_loading_val == Some(val != 0),
            final(self).env == old(self).env,
            final(self).timer_state == old(self).timer_state,
    {
        self.is_loading_val = Some(val != 0);
    }

    /// A tick's hook-and-update phase. Idle: try to hook the named
    /// process; failure leaves the driver idle. Just hooked: evaluate
    /// all paths and seed both slots from the first reading; failure
    /// unhooks silently. Hooked: rotate and evaluate; failure unhooks
    /// and reports the disconnect. On `Ready` the guest's per-tick entry
    /// points run next.
    pub fn begin_tick(&mut self) -> (r: TickOutcome)
        ensures
            final(self).timer_state == old(self).timer_state,
            final(self).is_loading_val == old(self).is_loading_val,
            final(self).env.process_name == old(self).env.process_name,
            final(self).env.pointer_paths@.len() == old(self).env.pointer_paths@.len(),
            r == TickOutcome::NotHooked ==> final(self).env.process is None,
            r == TickOutcome::Disconnected ==> old(self).env.process is Some && final(self).env.process is None,
            r == TickOutcome::Ready ==> final(self).env.process is Some,
            forall|p: int|
                0 <= p < old(self).env.pointer_paths@.len() ==> {
                    &&& (#[trigger] final(self).env.pointer_paths@[p]).module_name == old(self).env.pointer_paths@[p].module_name
                    &&& final(self).env.pointer_paths@[p].offsets@ == old(self).env.pointer_paths@[p].offsets@
                    &&& kind_of_value(final(self).env.pointer_paths@[p].current) == old(self).env.pointer_paths@[p].kind()
                    &&& (old(self).env.pointer_paths@[p].wf() ==> final(self).env.pointer_paths@[p].wf())
                },
            r == TickOutcome::Ready ==> forall|p: int|
                0 <= p < old(self).env.pointer_paths@.len() ==> {
                    &&& (#[trigger] final(self).env.pointer_paths@[p]).wf()
                    &&& (old(self).env.process is None ==> final(self).env.pointer_paths@[p].current == final(self).env.pointer_paths@[p].old_value)
                    &&& (old(self).env.process is Some ==> final(self).env.pointer_paths@[p].old_value == old(self).env.pointer_paths@[p].current)
                },
    {
        let just_connected = if self.env.process.is_none() {
            match Process::with_name(self.env.process_name.as_str()) {
                Ok(p) => {
                    self.env.process = Some(p);
                    true
                },
                Err(_) => {
                    return TickOutcome::NotHooked;
                },
            }
        } else {
            false
        };
        match self.env.update_values(just_connected) {
            Ok(_) => TickOutcome::Ready,
            Err(_) => {
                self.env.process = None;
                if just_connected {
                    TickOutcome::NotHooked
                } else {
                    TickOutcome::Disconnected
                }
            },
        }
    }
}

} // verus!
