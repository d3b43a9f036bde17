//! The halt controller: the one place where productive execution ends.

use vstd::prelude::*;

verus! {

/// How the system behaves once it has halted.
#[derive(Clone, Copy, Debug, PartialEq, Eq, Structural)]
pub enum HaltPolicy {
    /// Idle forever and wait for a debugger or a watchdog to step in.
    SpinHalt,
    /// Ask the hardware to reset itself.
    ControlledReset,
}

/// What the caller has to do, forever or once, after the controller halted.
#[derive(Clone, Copy, Debug, PartialEq, Eq, Structural)]
pub enum HaltAction {
    /// Loop without yielding control.
    Spin,
    /// Trigger the hardware self-reset.
    Reset,
}

/// The two states of the controller. Nothing leads out of `Halted`.
#[derive(Clone, Copy, Debug, PartialEq, Eq, Structural)]
pub enum HaltState {
    Live,
    Halted,
}

/// The action that a policy calls for.
pub open spec fn action_for(policy: HaltPolicy) -> HaltAction {
    match policy {
        HaltPolicy::SpinHalt => HaltAction::Spin,
        HaltPolicy::ControlledReset => HaltAction::Reset,
    }
}

/// The state after the controller has been entered from `state`: always
/// `Halted`, whatever it was.
pub open spec fn after_enter(state: HaltState) -> HaltState {
    HaltState::Halted
}

/// The state after the controller has been entered `times` times in a row.
pub open spec fn after_enters(state: HaltState, times: nat) -> HaltState
    decreases times,
{
    if times == 0 {
        state
    } else {
        after_enter(after_enters(state, (times - 1) as nat))
    }
}

/// Entering the controller again, any number of times, never leaves
/// `Halted`: a fault raised while a fault is being handled changes nothing.
pub proof fn lemma_reentry_stays_halted(times: nat)
    ensures
        after_enters(HaltState::Halted, times) == HaltState::Halted,
        times > 0 ==> after_enters(HaltState::Live, times) == HaltState::Halted,
    decreases times,
{
    if times > 0 {
        lemma_reentry_stays_halted((times - 1) as nat);
    }
}

/// The halt controller of one boot: a policy, fixed when the controller is
/// made, and the state it is in. Both are private, so that nothing but
/// `enter` changes the state.
#[derive(Clone, Copy, Debug, PartialEq, Eq, Structural)]
pub struct HaltController {
    policy: HaltPolicy,
    state: HaltState,
}

impl HaltController {
    pub closed spec fn spec_policy(&self) -> HaltPolicy {
        self.policy
    }

    pub closed spec fn spec_state(&self) -> HaltState {
        self.state
    }

    /// A controller that has not halted yet.
    pub fn new(policy: HaltPolicy) -> (c: HaltController)
        ensures
            c.policy() == policy,
            c.state() is Live,
    {
        HaltController { policy, state: HaltState::Live }
    }

    /// Enters the terminal state and says what the caller must now do. The
    /// policy is not changed, so that every later call gives the same answer.
    pub fn enter(&mut self) -> (action: HaltAction)
        ensures
            final(self).state() == after_enter(old(self).state()),
            final(self).state() is Halted,
            final(self).policy() == old(self).policy(),
            action == action_for(old(self).policy()),
        no_unwind
    {
        self.state = HaltState::Halted;
        match self.policy {
            HaltPolicy::SpinHalt => HaltAction::Spin,
            HaltPolicy::ControlledReset => HaltAction::Reset,
        }
    }

    #[verifier::when_used_as_spec(spec_policy)]
    pub fn policy(&self) -> (p: HaltPolicy)
        ensures
            p == self.policy(),
    {
        self.policy
    }

    #[verifier::when_used_as_spec(spec_state)]
    pub fn state(&self) -> (s: HaltState)
        ensures
            s == self.state(),
    {
        self.state
    }

    pub fn is_halted(&self) -> (b: bool)
        ensures
            b == (self.state() is Halted),
    {
        match self.state {
            HaltState::Halted => true,
            HaltState::Live => false,
        }
    }
}

} // verus!
