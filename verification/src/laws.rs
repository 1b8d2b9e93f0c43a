//! What holds of every run of the transform.

use crate::diagnostics::{
    aggregate_message, holds_every, lemma_aggregate_holds_every_diagnostic, Severity,
};
use crate::options::{DtsPlugin, ModuleType};
use crate::text::texts;
use crate::transform::{Action, DtsError, Event, Phase, TransformCoordinator};
use vstd::prelude::*;

verus! {

/// Step number `i` of a run leads from state `i` to state `i + 1`.
pub open spec fn step_at<E>(
    states: Seq<TransformCoordinator>,
    events: Seq<Event<E>>,
    actions: Seq<Action<E>>,
    i: int,
) -> bool {
    states[i].steps_to(events[i], states[i + 1], actions[i])
}

/// A run of the transform: the states it went through, the events that came in and the
/// actions that were handed out in answer.
pub open spec fn is_run<E>(
    states: Seq<TransformCoordinator>,
    events: Seq<Event<E>>,
    actions: Seq<Action<E>>,
) -> bool {
    &&& states.len() == events.len() + 1
    &&& actions.len() == events.len()
    &&& forall|i: int| 0 <= i < events.len() ==> #[trigger] step_at(states, events, actions, i)
}

/// The number of artifacts that the actions register.
pub open spec fn artifacts<E>(actions: Seq<Action<E>>) -> nat
    decreases actions.len(),
{
    if actions.len() == 0 {
        0
    } else {
        artifacts(actions.drop_last()) + if actions.last() is Emit {
            1nat
        } else {
            0nat
        }
    }
}

/// A step is taken only on an event that the phase waits for. It never skips the module
/// or goes back to an earlier phase, it asks the host for a module only while imports
/// are left, and it registers an artifact only once the declarations are printed.
pub proof fn lemma_step<E>(
    pre: TransformCoordinator,
    event: Event<E>,
    post: TransformCoordinator,
    action: Action<E>,
)
    requires
        pre.steps_to(event, post, action),
    ensures
        pre.accepts(event),
        !pre.phase.is_final(),
        !(post.phase is Skip),
        pre.phase.rank() <= post.phase.rank(),
        action.is_request() ==> post.phase.rank() == 1,
        action is Emit ==> pre.phase is Printing && post.phase is Emitting,
        post.phase.artifacts_ahead() + (if action is Emit {
            1nat
        } else {
            0nat
        }) <= pre.phase.artifacts_ahead(),
{
}

/// Once a transform is over (the module was skipped, its artifact is registered, or it
/// failed), nothing more happens.
pub proof fn lemma_nothing_follows_the_end<E>(
    states: Seq<TransformCoordinator>,
    events: Seq<Event<E>>,
    actions: Seq<Action<E>>,
    i: int,
)
    requires
        is_run(states, events, actions),
        0 <= i < states.len(),
        states[i].phase.is_final(),
    ensures
        events.len() == i,
{
    if i < events.len() {
        assert(step_at(states, events, actions, i));
        lemma_step(states[i], events[i], states[i + 1], actions[i]);
    }
}

/// Along a run the phase only moves forward.
pub proof fn lemma_phases_ascend<E>(
    states: Seq<TransformCoordinator>,
    events: Seq<Event<E>>,
    actions: Seq<Action<E>>,
    i: int,
    j: int,
)
    requires
        is_run(states, events, actions),
        0 <= i <= j < states.len(),
    ensures
        states[i].phase.rank() <= states[j].phase.rank(),
    decreases j - i,
{
    if i < j {
        lemma_phases_ascend(states, events, actions, i, j - 1);
        assert(step_at(states, events, actions, j - 1));
        lemma_step(states[j - 1], events[j - 1], states[j], actions[j - 1]);
    }
}

/// A run for a skipped module holds no event and no action: nothing is resolved, loaded,
/// synthesized or registered, and the syntax tree goes back as it came.
pub proof fn lemma_skipped_module_passes_through<E>(
    states: Seq<TransformCoordinator>,
    events: Seq<Event<E>>,
    actions: Seq<Action<E>>,
)
    requires
        is_run(states, events, actions),
        states[0].phase is Skip,
    ensures
        events.len() == 0,
        actions.len() == 0,
        artifacts(actions) == 0,
{
    lemma_nothing_follows_the_end(states, events, actions, 0);
}

/// A module that is not written in TypeScript is skipped.
pub proof fn lemma_other_module_types_pass_through<E>(
    plugin: DtsPlugin,
    module_type: ModuleType,
    states: Seq<TransformCoordinator>,
    events: Seq<Event<E>>,
    actions: Seq<Action<E>>,
)
    requires
        is_run(states, events, actions),
        states[0].phase == plugin.first_phase(module_type),
        !module_type.is_typescript(),
    ensures
        states[0].phase is Skip,
        events.len() == 0,
        actions.len() == 0,
        artifacts(actions) == 0,
{
    lemma_skipped_module_passes_through(states, events, actions);
}

/// A module is skipped, whatever its type, where the compiler options forbid all output
/// or leave declarations switched off.
pub proof fn lemma_disabled_declarations_pass_through<E>(
    plugin: DtsPlugin,
    module_type: ModuleType,
    states: Seq<TransformCoordinator>,
    events: Seq<Event<E>>,
    actions: Seq<Action<E>>,
)
    requires
        is_run(states, events, actions),
        states[0].phase == plugin.first_phase(module_type),
        plugin.compiler_options matches Some(options) && (options.no_emit
            || !options.declaration),
    ensures
        states[0].phase is Skip,
        events.len() == 0,
        actions.len() == 0,
        artifacts(actions) == 0,
{
    lemma_skipped_module_passes_through(states, events, actions);
}

/// After the first `n` steps of a run, the artifacts registered so far and those that
/// can still follow are together no more than could follow at the start.
proof fn lemma_artifacts_within_budget<E>(
    states: Seq<TransformCoordinator>,
    events: Seq<Event<E>>,
    actions: Seq<Action<E>>,
    n: int,
)
    requires
        is_run(states, events, actions),
        0 <= n <= actions.len(),
    ensures
        artifacts(actions.take(n)) + states[n].phase.artifacts_ahead()
            <= states[0].phase.artifacts_ahead(),
    decreases n,
{
    if n > 0 {
        lemma_artifacts_within_budget(states, events, actions, n - 1);
        assert(step_at(states, events, actions, n - 1));
        lemma_step(states[n - 1], events[n - 1], states[n], actions[n - 1]);
        assert(actions.take(n).drop_last() =~= actions.take(n - 1));
        assert(actions.take(n).last() == actions[n - 1]);
    }
}

/// A run registers at most one artifact for its module.
pub proof fn lemma_at_most_one_artifact<E>(
    states: Seq<TransformCoordinator>,
    events: Seq<Event<E>>,
    actions: Seq<Action<E>>,
)
    requires
        is_run(states, events, actions),
    ensures
        artifacts(actions) <= 1,
{
    lemma_artifacts_within_budget(states, events, actions, actions.len() as int);
    assert(actions.take(actions.len() as int) =~= actions);
}

/// For a module without type-only imports the host is never asked to resolve or to load
/// anything: synthesis begins at once.
pub proof fn lemma_no_import_no_request<E>(
    states: Seq<TransformCoordinator>,
    events: Seq<Event<E>>,
    actions: Seq<Action<E>>,
)
    requires
        is_run(states, events, actions),
        events.len() > 0,
        events[0] matches Event::Collected { specifiers } && specifiers@.len() == 0,
    ensures
        actions[0] is Synthesize,
        forall|i: int| 0 <= i < actions.len() ==> !(#[trigger] actions[i]).is_request(),
{
    assert(step_at(states, events, actions, 0));
    assert forall|i: int| 0 <= i < actions.len() implies !(#[trigger] actions[i]).is_request() by {
        if i > 0 {
            assert(step_at(states, events, actions, i));
            lemma_step(states[i], events[i], states[i + 1], actions[i]);
            lemma_phases_ascend(states, events, actions, 1, i + 1);
        }
    }
}

/// The imports are resolved one after the other, in their order: a request to resolve
/// names the import at the cursor and the module itself as importer, and a request to
/// load follows a resolution that is
/// not external and names the module that the import resolved to.
pub proof fn lemma_requests_follow_the_imports<E>(
    pre: TransformCoordinator,
    event: Event<E>,
    post: TransformCoordinator,
    action: Action<E>,
)
    requires
        pre.steps_to(event, post, action),
    ensures
        action matches Action::Resolve { specifier, importer } ==> post.cursor
            < post.specifiers@.len() && specifier == post.specifiers@[post.cursor as int]
            && importer == post.id && post.id == pre.id && (event is Collected
            ==> post.cursor == 0) && (!(event is Collected) ==> post.cursor == pre.cursor + 1
            && post.specifiers == pre.specifiers),
        action matches Action::Load { id } ==> event matches Event::Resolved {
            id: resolved,
            external,
        } && id == resolved && external.is_internal() && post.cursor == pre.cursor,
        event matches Event::Resolved { external, .. } ==> (action is Load
            <==> external.is_internal()),
{
}

/// If synthesis reports a diagnostic, of whatever severity, the transform fails: the
/// diagnostics are handed out to be rendered as errors of this plugin, the one thing
/// that can follow is the failure whose message holds the text of every rendered
/// diagnostic, and the run registers no artifact.
pub proof fn lemma_diagnostics_fail_the_transform<E>(
    states: Seq<TransformCoordinator>,
    events: Seq<Event<E>>,
    actions: Seq<Action<E>>,
    at: int,
)
    requires
        is_run(states, events, actions),
        0 <= at < events.len(),
        events[at] matches Event::Synthesized { diagnostics, .. } && diagnostics@.len() > 0,
    ensures
        states[at + 1].phase is Rendering,
        actions[at] matches Action::Render { diagnostics: handed, kind, severity, .. } && (
        events[at] matches Event::Synthesized { diagnostics, .. } && handed == diagnostics)
            && kind@ == DtsPlugin::spec_name() && severity == Severity::Error,
        events.len() <= at + 2,
        events.len() == at + 2 ==> states[at + 2].phase is Failed && (
        events[at + 1] matches Event::Rendered { texts: rendered } && (
        actions[at + 1] matches Action::Fail { error: DtsError::Synthesis(failure) }
            && failure.message@ == aggregate_message(texts(rendered@)) && holds_every(
            failure.message@,
            texts(rendered@),
        ))),
        forall|i: int| 0 <= i < actions.len() ==> !(#[trigger] actions[i] is Emit),
        artifacts(actions) == 0,
{
    assert(step_at(states, events, actions, at));
    if events.len() > at + 1 {
        assert(step_at(states, events, actions, at + 1));
        lemma_step(states[at + 1], events[at + 1], states[at + 2], actions[at + 1]);
        lemma_nothing_follows_the_end(states, events, actions, at + 2);
        if let Event::Rendered { texts: rendered } = events[at + 1] {
            lemma_aggregate_holds_every_diagnostic(texts(rendered@));
        }
    }
    assert forall|i: int| 0 <= i < actions.len() implies !(#[trigger] actions[i] is Emit) by {
        if i < at {
            assert(step_at(states, events, actions, i));
            lemma_step(states[i], events[i], states[i + 1], actions[i]);
            lemma_phases_ascend(states, events, actions, i + 1, at);
        } else if i > at {
            assert(step_at(states, events, actions, i));
        }
    }
    lemma_no_emit_no_artifact(actions);
}

/// Actions without one that registers an artifact register none.
proof fn lemma_no_emit_no_artifact<E>(actions: Seq<Action<E>>)
    requires
        forall|i: int| 0 <= i < actions.len() ==> !(#[trigger] actions[i] is Emit),
    ensures
        artifacts(actions) == 0,
    decreases actions.len(),
{
    if actions.len() > 0 {
        assert(!(actions[actions.len() - 1] is Emit));
        lemma_no_emit_no_artifact(actions.drop_last());
    }
}

/// The imports that the actions ask the host to resolve, in the order of the requests.
pub open spec fn resolve_requests<E>(actions: Seq<Action<E>>) -> Seq<String>
    decreases actions.len(),
{
    if actions.len() == 0 {
        Seq::empty()
    } else {
        let before = resolve_requests(actions.drop_last());
        match actions.last() {
            Action::Resolve { specifier, .. } => before.push(specifier),
            _ => before,
        }
    }
}

/// The number of imports that the host was asked to resolve when the transform stands
/// in `state`, unless it failed.
pub open spec fn imports_requested(state: TransformCoordinator) -> int {
    match state.phase {
        Phase::Skip => 0,
        Phase::Collecting => 0,
        Phase::Resolving => state.cursor + 1,
        Phase::Loading => state.cursor + 1,
        _ => state.cursor as int,
    }
}

/// A step keeps the state in order.
pub proof fn lemma_step_keeps_order<E>(
    pre: TransformCoordinator,
    event: Event<E>,
    post: TransformCoordinator,
    action: Action<E>,
)
    requires
        pre.wf(),
        pre.steps_to(event, post, action),
    ensures
        post.wf(),
        post.phase.rank() >= 2 && !(post.phase is Failed) && pre.phase.rank() >= 1
            ==> post.specifiers == pre.specifiers,
        pre.phase.rank() == 1 && post.phase is Synthesizing ==> post.cursor
            == post.specifiers@.len(),
        pre.phase.rank() >= 2 && !(post.phase is Failed) ==> post.cursor == pre.cursor,
{
}

/// After the first `n` steps of a run that has not failed, the host was asked to
/// resolve the first imports, one request for each and in their order.
proof fn lemma_requests_are_a_prefix<E>(
    states: Seq<TransformCoordinator>,
    events: Seq<Event<E>>,
    actions: Seq<Action<E>>,
    n: int,
)
    requires
        is_run(states, events, actions),
        states[0].phase is Collecting,
        states[0].wf(),
        0 <= n <= events.len(),
        !(states[n].phase is Failed),
    ensures
        states[n].wf(),
        states[n].phase.rank() >= 2 ==> states[n].cursor == states[n].specifiers@.len(),
        0 <= imports_requested(states[n]) <= states[n].specifiers@.len(),
        resolve_requests(actions.take(n)) == states[n].specifiers@.take(
            imports_requested(states[n]),
        ),
    decreases n,
{
    if n == 0 {
        assert(actions.take(0) =~= Seq::<Action<E>>::empty());
        assert(states[0].specifiers@.take(0) =~= Seq::<String>::empty());
    } else {
        let pre = states[n - 1];
        let post = states[n];
        assert(step_at(states, events, actions, n - 1));
        lemma_step(pre, events[n - 1], post, actions[n - 1]);
        lemma_requests_are_a_prefix(states, events, actions, n - 1);
        lemma_step_keeps_order(pre, events[n - 1], post, actions[n - 1]);
        assert(actions.take(n).drop_last() =~= actions.take(n - 1));
        assert(actions.take(n).last() == actions[n - 1]);
        let before = resolve_requests(actions.take(n - 1));
        let asked = imports_requested(post);
        match actions[n - 1] {
            Action::Resolve { specifier, .. } => {
                assert(post.specifiers@.take(asked) =~= post.specifiers@.take(asked - 1).push(
                    specifier,
                ));
                if events[n - 1] is Collected {
                    assert(before =~= post.specifiers@.take(0));
                }
            },
            _ => {
                if events[n - 1] is Collected {
                    assert(before =~= post.specifiers@.take(0));
                }
            },
        }
    }
}

/// In a run that has not failed, the host was asked to resolve the type-only imports in
/// source order, one request for each; and once synthesis has begun, all of them.
pub proof fn lemma_imports_are_resolved_in_order<E>(
    states: Seq<TransformCoordinator>,
    events: Seq<Event<E>>,
    actions: Seq<Action<E>>,
)
    requires
        is_run(states, events, actions),
        states[0].phase is Collecting,
        states[0].wf(),
        !(states.last().phase is Failed),
    ensures
        resolve_requests(actions) == states.last().specifiers@.take(
            imports_requested(states.last()),
        ),
        states.last().phase.rank() >= 2 ==> resolve_requests(actions)
            == states.last().specifiers@,
{
    let n = events.len() as int;
    lemma_requests_are_a_prefix(states, events, actions, n);
    assert(actions.take(n) =~= actions);
    if states.last().phase.rank() >= 2 {
        assert(step_at(states, events, actions, n - 1));
        lemma_step(states[n - 1], events[n - 1], states[n], actions[n - 1]);
        assert(states[n].specifiers@.take(states[n].specifiers@.len() as int)
            =~= states[n].specifiers@);
    }
}

} // verus!
