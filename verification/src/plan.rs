//! The steps of start-up: attach the configured plugins, then run the host.

use crate::plugin::{lemma_registration_order_lists_the_set, registration_order, Plugin, PluginSet};
use vstd::prelude::*;

verus! {

/// One thing that start-up asks of the host.
///
/// Start-up only registers capabilities. What a plugin offers is called by
/// the frontend once the host runs, never during start-up, and so no step
/// stands for such a call.
#[derive(Clone, Copy, Debug, PartialEq, Eq, Structural)]
pub enum Step {
    /// Register the plugin with the host that is being built.
    Attach(Plugin),
    /// Hand control to the host's run loop, which blocks until the host exits.
    Run,
}

/// The steps of start-up for a configuration: one `Attach` for each member,
/// in registration order, and `Run` at the end.
pub open spec fn startup_steps(plugins: Set<Plugin>) -> Seq<Step> {
    registration_order(plugins).map_values(|p: Plugin| Step::Attach(p)).push(Step::Run)
}

/// What is asked of a start-up sequence, said without building one: it ends
/// in the one `Run`; before it stand only attachments of configured plugins;
/// every configured plugin is attached; and network access comes before
/// persistent storage, which also means that nothing is attached twice.
pub open spec fn attaches_then_runs(steps: Seq<Step>, plugins: Set<Plugin>) -> bool {
    &&& steps.len() >= 1
    &&& steps.last() == Step::Run
    &&& forall|i: int|
        0 <= i < steps.len() - 1 ==> (#[trigger] steps[i] matches Step::Attach(p)
            && plugins.contains(p))
    &&& forall|p: Plugin|
        plugins.contains(p) ==> exists|i: int|
            0 <= i < steps.len() - 1 && #[trigger] steps[i] == Step::Attach(p)
    &&& forall|i: int, j: int|
        0 <= i < j < steps.len() - 1 ==> attached_rank(#[trigger] steps[i]) < attached_rank(
            #[trigger] steps[j],
        )
}

/// The rank of the plugin that a step attaches; `Run` ranks after all of them.
pub open spec fn attached_rank(step: Step) -> nat {
    match step {
        Step::Attach(p) => p.rank(),
        Step::Run => 2,
    }
}

/// Lists the steps of start-up for `set`, in the order in which they are to
/// be performed.
pub fn startup_plan(set: &PluginSet) -> (plan: Vec<Step>)
    ensures
        plan@ == startup_steps(set@),
        attaches_then_runs(plan@, set@),
{
    let order = set.in_order();
    let mut plan: Vec<Step> = Vec::new();
    let mut i: usize = 0;
    while i < order.len()
        invariant
            i <= order.len(),
            plan@ == order@.take(i as int).map_values(|p: Plugin| Step::Attach(p)),
        decreases order.len() - i,
    {
        plan.push(Step::Attach(order[i]));
        i += 1;
        assert(plan@ =~= order@.take(i as int).map_values(|p: Plugin| Step::Attach(p)));
    }
    assert(order@.take(i as int) =~= order@);
    plan.push(Step::Run);
    proof {
        lemma_startup_steps_attach_then_run(set@);
    }
    plan
}

/// For every configuration, start-up attaches exactly the configured
/// plugins, in registration order, before it runs the host, and does
/// nothing after.
pub proof fn lemma_startup_steps_attach_then_run(plugins: Set<Plugin>)
    ensures
        attaches_then_runs(startup_steps(plugins), plugins),
{
    let order = registration_order(plugins);
    let steps = startup_steps(plugins);
    lemma_registration_order_lists_the_set(plugins);
    assert(steps.len() == order.len() + 1);
    assert forall|i: int| 0 <= i < steps.len() - 1 implies (#[trigger] steps[i] matches Step::Attach(
        p,
    ) && plugins.contains(p)) by {
        assert(steps[i] == Step::Attach(order[i]));
        assert(order.contains(order[i]));
    }
    assert forall|p: Plugin| plugins.contains(p) implies exists|i: int|
        0 <= i < steps.len() - 1 && #[trigger] steps[i] == Step::Attach(p) by {
        assert(order.contains(p));
        let k = choose|k: int| 0 <= k < order.len() && order[k] == p;
        assert(steps[k] == Step::Attach(p));
    }
    assert forall|i: int, j: int| 0 <= i < j < steps.len() - 1 implies attached_rank(
        #[trigger] steps[i],
    ) < attached_rank(#[trigger] steps[j]) by {
        assert(steps[i] == Step::Attach(order[i]));
        assert(steps[j] == Step::Attach(order[j]));
    }
}

/// No other sequence does what is asked of start-up: one that attaches the
/// configured plugins in order and then runs is the sequence of
/// `startup_steps`.
pub proof fn lemma_attaches_then_runs_is_unique(steps: Seq<Step>, plugins: Set<Plugin>)
    requires
        attaches_then_runs(steps, plugins),
    ensures
        steps == startup_steps(plugins),
{
    let n = steps.len() - 1;
    // Ranks before `Run` rise strictly and stay below 2, so at most two
    // steps stand there.
    if n >= 3 {
        assert(attached_rank(steps[0]) < attached_rank(steps[1]) < attached_rank(steps[2]));
    }
    if n >= 2 {
        assert(attached_rank(steps[0]) < attached_rank(steps[1]));
    }
    if n >= 1 {
        assert(steps[0] is Attach);
    }
    assert(steps =~= startup_steps(plugins));
}

} // verus!
