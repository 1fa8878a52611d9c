//! The guard of one registration with the host.

use vstd::prelude::*;

verus! {

/// The host rejected a registration: it returned no hook.
#[derive(Clone, Copy, PartialEq, Eq, Structural, Debug)]
pub struct RegistrationError;

/// One call that ending a registration makes, in the order they are made.
#[derive(Clone, Copy, PartialEq, Eq, Structural, Debug)]
pub enum HostStep {
    /// Ask the host of plugin `plugin` to remove the hook `hook`; the host
    /// calls no trampoline for it once this returns.
    Deregister { plugin: usize, hook: usize },
    /// Release the callback state of the registration.
    FreeState,
}

/// The steps that end the registration `hook` of plugin `plugin`: the hook
/// is removed first, then its callback state is released.
pub open spec fn teardown_steps(plugin: usize, hook: usize) -> Seq<HostStep> {
    seq![HostStep::Deregister { plugin, hook }, HostStep::FreeState]
}

/// The deregistrations among `steps`.
pub open spec fn deregistrations(steps: Seq<HostStep>) -> Seq<HostStep> {
    steps.filter(|s: HostStep| s is Deregister)
}

/// An active registration: the host's identity for it, never null, and the
/// plugin it belongs to. It cannot be copied; ending it consumes it.
pub struct Hook {
    ptr: usize,
    weechat_ptr: usize,
}

impl Hook {
    /// The host's identity of the registration.
    pub closed spec fn identity(&self) -> usize {
        self.ptr
    }

    /// The plugin the registration belongs to.
    pub closed spec fn plugin(&self) -> usize {
        self.weechat_ptr
    }

    /// The host's answer `ptr` to a registration of plugin `weechat_ptr`: no
    /// hook where it is null, else a hook with that identity.
    pub fn from_host(ptr: usize, weechat_ptr: usize) -> (r: Option<Hook>)
        ensures
            r is None <==> ptr == 0,
            r matches Some(h) ==> h.identity() == ptr && h.plugin() == weechat_ptr,
    {
        if ptr == 0 {
            None
        } else {
            Some(Hook { ptr, weechat_ptr })
        }
    }

    /// The host's identity of the registration.
    pub fn ptr(&self) -> (r: usize)
        ensures
            r == self.identity(),
    {
        self.ptr
    }

    /// Ends the registration: the one deregistration call that the host
    /// gets for this hook, followed by the release of the callback state.
    pub fn teardown(self) -> (r: Vec<HostStep>)
        ensures
            r@ == teardown_steps(self.plugin(), self.identity()),
    {
        let mut steps: Vec<HostStep> = Vec::new();
        steps.push(HostStep::Deregister { plugin: self.weechat_ptr, hook: self.ptr });
        steps.push(HostStep::FreeState);
        assert(steps@ =~= teardown_steps(self.plugin(), self.identity()));
        steps
    }
}

/// Ending a registration deregisters it exactly once, with its own
/// identity, and before its callback state is released.
pub proof fn lemma_teardown_deregisters_once(plugin: usize, hook: usize)
    ensures
        deregistrations(teardown_steps(plugin, hook)) == seq![HostStep::Deregister { plugin, hook }],
        teardown_steps(plugin, hook).last() == HostStep::FreeState,
{
    let steps = teardown_steps(plugin, hook);
    reveal_with_fuel(Seq::filter, 3);
    assert(steps.drop_last() =~= seq![HostStep::Deregister { plugin, hook }]);
    assert(seq![HostStep::Deregister { plugin, hook }].drop_last() =~= Seq::<HostStep>::empty());
    assert(Seq::<HostStep>::empty().filter(|s: HostStep| s is Deregister) =~= Seq::<HostStep>::empty());
    assert(deregistrations(steps) =~= seq![HostStep::Deregister { plugin, hook }]);
}

} // verus!
