//! Lazily named asynchronous work.
//!
//! Launched work may carry a human-readable name for profiling.  Computing
//! the name can allocate, so it is handed in as a closure and the launcher
//! follows a strategy fixed at startup: the no-op strategy never evaluates
//! the closure, keeping the hot path free of avoidable allocation, while the
//! instrumented strategy evaluates it for every launch and registers the
//! unit of work under the computed name.

use vstd::prelude::*;

verus! {

/// The naming strategy, selected once at startup: off for production, on for
/// profiling.
#[derive(Clone, Copy, PartialEq, Eq, Structural, Debug)]
pub enum Instrumentation {
    Disabled,
    Enabled,
}

/// Decides, per launch, whether a name is materialized, and remembers the
/// names registered so far while instrumentation is on.
pub struct TaskLauncher {
    instrumentation: Instrumentation,
    registered: Vec<String>,
}

impl TaskLauncher {
    pub closed spec fn spec_instrumentation(&self) -> Instrumentation {
        self.instrumentation
    }

    /// The names registered so far, in launch order.
    pub closed spec fn spec_registered(&self) -> Seq<String> {
        self.registered@
    }

    /// A launcher with the given strategy and nothing registered yet.
    pub fn new(instrumentation: Instrumentation) -> (launcher: Self)
        ensures
            launcher.spec_instrumentation() == instrumentation,
            launcher.spec_registered() == Seq::<String>::empty(),
    {
        TaskLauncher { instrumentation, registered: Vec::new() }
    }

    /// Account for one launched unit of work.  With instrumentation disabled
    /// the naming closure is dropped unevaluated and nothing is registered;
    /// with it enabled the closure's result is registered and handed back.
    pub fn launch<F: FnOnce() -> String>(&mut self, name_fn: F) -> (registered_name: Option<
        String,
    >)
        requires
            old(self).spec_instrumentation() is Enabled ==> call_requires(name_fn, ()),
        ensures
            final(self).spec_instrumentation() == old(self).spec_instrumentation(),
            old(self).spec_instrumentation() is Disabled ==> registered_name is None
                && final(self).spec_registered() == old(self).spec_registered(),
            old(self).spec_instrumentation() is Enabled ==> (registered_name matches Some(name)
                && call_ensures(name_fn, (), name) && final(self).spec_registered() == old(
                self,
            ).spec_registered().push(name)),
    {
        match self.instrumentation {
            Instrumentation::Disabled => None,
            Instrumentation::Enabled => {
                let name = name_fn();
                self.registered.push(name.clone());
                Some(name)
            },
        }
    }

    /// How many units of work have been registered.
    pub fn registered_count(&self) -> (count: usize)
        ensures
            count == self.spec_registered().len(),
    {
        self.registered.len()
    }

    /// The name the i-th registered unit of work was launched under.
    pub fn registered_name(&self, i: usize) -> (name: &String)
        requires
            i < self.spec_registered().len(),
        ensures
            name == self.spec_registered()[i as int],
    {
        &self.registered[i]
    }
}

} // verus!
