//! Instance identity and the mandated instance lifecycle.
//!
//! Each loaded library carries a name factory whose monotonic counter
//! makes every generated instance name unique for that library. Each
//! live instance moves through a fixed state machine — configured,
//! initializing, stepping, terminated — whose transitions are decided
//! here; the shell that owns the native handle performs one native call
//! per accepted transition and hands the resulting status back.

use vstd::prelude::*;

use crate::text::{chars_to_string, lemma_spec_dec_injective, push_dec, spec_dec, str_to_chars};

verus! {

/// The instance name generated for a library identifier and an ordinal:
/// the identifier, an underscore, and the ordinal in decimal.
pub open spec fn spec_instance_name(identifier: Seq<char>, ordinal: nat) -> Seq<char> {
    identifier + seq!['_'] + spec_dec(ordinal)
}

/// Names generated from one identifier are the same exactly for the same
/// ordinal: a library's name factory never hands out one name twice.
pub proof fn lemma_instance_name_injective(identifier: Seq<char>, a: nat, b: nat)
    ensures
        (spec_instance_name(identifier, a) == spec_instance_name(identifier, b)) == (a == b),
{
    if spec_instance_name(identifier, a) == spec_instance_name(identifier, b) {
        let na = spec_instance_name(identifier, a);
        let nb = spec_instance_name(identifier, b);
        let base = identifier.len() + 1;
        assert(na.len() == base + spec_dec(a).len());
        assert(nb.len() == base + spec_dec(b).len());
        assert(spec_dec(a) =~= na.subrange(base as int, na.len() as int));
        assert(spec_dec(b) =~= nb.subrange(base as int, nb.len() as int));
        lemma_spec_dec_injective(a, b);
    }
}

/// Generates unique instance names for one loaded library.
///
/// The counter only ever grows, so distinct calls yield distinct names;
/// the shell that shares one factory across threads must serialize the
/// calls.
#[derive(Debug)]
pub struct InstanceNameFactory {
    model_identifier: String,
    instance_counter: u64,
}

impl InstanceNameFactory {
    /// The identifier every generated name starts with.
    pub closed spec fn identifier(&self) -> Seq<char> {
        self.model_identifier@
    }

    /// The ordinal the next generated name will carry.
    pub closed spec fn counter(&self) -> nat {
        self.instance_counter as nat
    }

    /// A fresh factory for a library identifier, starting at ordinal zero.
    pub fn new(model_identifier: String) -> (r: Self)
        ensures
            r.identifier() == model_identifier@,
            r.counter() == 0,
    {
        InstanceNameFactory { model_identifier, instance_counter: 0 }
    }

    /// The ordinal the next generated name will carry, as a value: a
    /// caller tests it against the counter's ceiling before asking for
    /// another name.
    pub fn count(&self) -> (r: u64)
        ensures
            r == self.counter(),
    {
        self.instance_counter
    }

    /// Generate the next instance name and advance the counter.
    pub fn next(&mut self) -> (r: String)
        requires
            old(self).counter() < u64::MAX,
        ensures
            final(self).identifier() == old(self).identifier(),
            final(self).counter() == old(self).counter() + 1,
            r@ == spec_instance_name(old(self).identifier(), old(self).counter()),
    {
        let mut name = str_to_chars(self.model_identifier.as_str());
        name.push('_');
        proof {
            assert(name@ =~= self.model_identifier@ + seq!['_']);
        }
        push_dec(self.instance_counter, &mut name);
        self.instance_counter = self.instance_counter + 1;
        chars_to_string(name.as_slice())
    }
}

/// The state of one live instance. An instance exists only after a
/// successful native instantiate call, so the machine starts configured.
#[derive(Debug, Clone, Copy, PartialEq, Eq, Structural)]
pub enum InstanceState {
    /// Instantiated; the experiment may still be set up.
    Configured,
    /// Between entering and leaving initialization mode.
    Initializing,
    /// Initialization done; simulation time may advance.
    Stepping,
    /// Released or terminated; no further native call may take it.
    Terminated,
}

/// The native calls that move an instance through its lifecycle.
#[derive(Debug, Clone, Copy, PartialEq, Eq, Structural)]
pub enum LifecycleEvent {
    SetupExperiment,
    EnterInitialization,
    ExitInitialization,
    DoStep,
    Terminate,
}

/// The mandated transition table: the state an event moves an instance
/// to, or nothing where the event is illegal in that state. No step may
/// be skipped and nothing comes back from termination, while termination
/// itself is allowed from every live state.
pub open spec fn spec_advance(s: InstanceState, e: LifecycleEvent) -> Option<InstanceState> {
    match (s, e) {
        (InstanceState::Configured, LifecycleEvent::SetupExperiment) => Some(
            InstanceState::Configured,
        ),
        (InstanceState::Configured, LifecycleEvent::EnterInitialization) => Some(
            InstanceState::Initializing,
        ),
        (InstanceState::Initializing, LifecycleEvent::ExitInitialization) => Some(
            InstanceState::Stepping,
        ),
        (InstanceState::Stepping, LifecycleEvent::DoStep) => Some(InstanceState::Stepping),
        (InstanceState::Configured, LifecycleEvent::Terminate) => Some(InstanceState::Terminated),
        (InstanceState::Initializing, LifecycleEvent::Terminate) => Some(
            InstanceState::Terminated,
        ),
        (InstanceState::Stepping, LifecycleEvent::Terminate) => Some(InstanceState::Terminated),
        _ => None,
    }
}

/// Decide a transition.
pub fn advance(s: InstanceState, e: LifecycleEvent) -> (r: Option<InstanceState>)
    ensures
        r == spec_advance(s, e),
{
    match (s, e) {
        (InstanceState::Configured, LifecycleEvent::SetupExperiment) => Some(
            InstanceState::Configured,
        ),
        (InstanceState::Configured, LifecycleEvent::EnterInitialization) => Some(
            InstanceState::Initializing,
        ),
        (InstanceState::Initializing, LifecycleEvent::ExitInitialization) => Some(
            InstanceState::Stepping,
        ),
        (InstanceState::Stepping, LifecycleEvent::DoStep) => Some(InstanceState::Stepping),
        (InstanceState::Configured, LifecycleEvent::Terminate) => Some(InstanceState::Terminated),
        (InstanceState::Initializing, LifecycleEvent::Terminate) => Some(
            InstanceState::Terminated,
        ),
        (InstanceState::Stepping, LifecycleEvent::Terminate) => Some(InstanceState::Terminated),
        _ => None,
    }
}

/// Nothing comes back from termination: no event is legal on a
/// terminated instance, so the native handle is released exactly once.
pub proof fn lemma_terminated_is_final(e: LifecycleEvent)
    ensures
        spec_advance(InstanceState::Terminated, e) is None,
{
}

/// The mandated order cannot be skipped: stepping is reached only from
/// initialization or from stepping itself, and initialization only from
/// the configured state.
pub proof fn lemma_no_state_skipped(s: InstanceState, e: LifecycleEvent)
    ensures
        spec_advance(s, e) == Some(InstanceState::Stepping) ==> (s == InstanceState::Initializing
            || s == InstanceState::Stepping),
        spec_advance(s, e) == Some(InstanceState::Initializing) ==> s == InstanceState::Configured,
{
}

/// Whether a set call issued in this state still reaches initialization:
/// setting a parameter of fixed variability is meaningful only before
/// initialization mode is left, so a host that sets one later must not
/// expect it to take.
pub fn fixed_set_effective(state: InstanceState) -> (r: bool)
    ensures
        r == (state == InstanceState::Configured || state == InstanceState::Initializing),
{
    match state {
        InstanceState::Configured => true,
        InstanceState::Initializing => true,
        InstanceState::Stepping => false,
        InstanceState::Terminated => false,
    }
}

/// Tracks one instance's lifecycle state together with the snapshot
/// protocol's obligation: after a restore, the next step must tell the
/// native side that state was externally set.
#[derive(Debug, Clone, Copy, PartialEq, Eq, Structural)]
pub struct InstanceTracker {
    pub state: InstanceState,
    pub state_restored: bool,
}

impl InstanceTracker {
    /// The tracker for a freshly instantiated instance.
    pub fn new() -> (r: Self)
        ensures
            r.state == InstanceState::Configured,
            !r.state_restored,
    {
        InstanceTracker { state: InstanceState::Configured, state_restored: false }
    }

    /// Whether the next step may claim that no state was set externally
    /// since the last step: exactly when no snapshot was restored since.
    pub fn no_set_state_prior(&self) -> (r: bool)
        ensures
            r == !self.state_restored,
    {
        !self.state_restored
    }

    /// Record that a snapshot was restored into the instance; the state
    /// machine's position is unchanged.
    pub fn record_restore(&mut self)
        ensures
            final(self).state == old(self).state,
            final(self).state_restored,
    {
        self.state_restored = true;
    }

    /// Take a lifecycle event: where the transition table allows it, move
    /// and report acceptance; where it does not, stay put and report
    /// refusal. Taking a step clears the restore obligation.
    pub fn take(&mut self, e: LifecycleEvent) -> (accepted: bool)
        ensures
            match spec_advance(old(self).state, e) {
                Some(s2) => accepted && final(self).state == s2 && final(self).state_restored == (
                if e == LifecycleEvent::DoStep {
                    false
                } else {
                    old(self).state_restored
                }),
                None => !accepted && *final(self) == *old(self),
            },
    {
        match advance(self.state, e) {
            Some(s2) => {
                self.state = s2;
                if matches!(e, LifecycleEvent::DoStep) {
                    self.state_restored = false;
                }
                true
            },
            None => false,
        }
    }
}

} // verus!
