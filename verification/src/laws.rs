//! Properties that hold across the engine's operations.
use crate::clock::Timestamp;
use crate::engine::{
    condition_fires, engine_feedback, firing_pattern, is_new_instance, lookup_failure, query_for,
};
use crate::model::{
    has_step, initial_step_ids, is_initial_step, lemma_initial_ids_are_steps, FeedbackLoop, Step,
    FeedbackCondition, InstanceStatus, StepResult, StepStatus, TaskType, Workflow, WorkflowInstance,
};
use crate::registry::{is_expired, live_part, WorkerInfo};
use crate::scheduler::{
    always_fire, fires_at, first_missing_target, new_worker_info, scheduler_feedback, with_heartbeat,
};
use crate::storage::{records_step_result, with_id, InMemoryStorage};
use crate::worker::is_running_result;
use vstd::prelude::*;

verus! {

/// A stored workflow is read back as it was saved: once `after` holds the
/// workflows of `before` with `workflow` saved, the workflow under its
/// identifier is `workflow`.
pub proof fn law_workflow_read_after_save(before: Map<u128, Workflow>, after: Map<u128, Workflow>, workflow: Workflow)
    requires
        after == before.insert(workflow.id, workflow),
    ensures
        after.contains_key(workflow.id),
        after[workflow.id] == workflow,
        forall|k: u128| k != workflow.id ==> (#[trigger] after.contains_key(k) == before.contains_key(k)),
{
}

/// A stored instance is read back as it was saved, and saving it leaves the
/// other instances alone.
pub proof fn law_instance_read_after_save(
    before: Map<u128, WorkflowInstance>,
    after: Map<u128, WorkflowInstance>,
    instance: WorkflowInstance,
)
    requires
        after == before.insert(instance.id, instance),
    ensures
        after.contains_key(instance.id),
        after[instance.id] == instance,
        forall|k: u128| k != instance.id && #[trigger] before.contains_key(k) ==> after[k] == before[k],
{
}

/// A recorded step result is read back as it was recorded, and the results
/// of the instance's other steps stay as they were.
pub proof fn law_step_result_read_after_update(
    before: WorkflowInstance,
    after: WorkflowInstance,
    step_id: u128,
    result: StepResult,
    now: Timestamp,
)
    requires
        records_step_result(before, after, step_id, result, now),
    ensures
        after.step_results@.contains_key(step_id),
        after.step_results@[step_id] == result,
        forall|k: u128|
            k != step_id ==> #[trigger] after.step_results@.contains_key(k)
                == before.step_results@.contains_key(k),
        forall|k: u128|
            k != step_id && #[trigger] before.step_results@.contains_key(k) ==> after.step_results@[k]
                == before.step_results@[k],
{
}

/// A worker that has just sent a heartbeat survives a sweep for dead workers
/// made at the same instant, whatever the (non-negative) timeout.
pub proof fn law_fresh_heartbeat_survives_sweep(
    workers: Map<Seq<char>, WorkerInfo>,
    id: Seq<char>,
    now: Timestamp,
    limit_secs: i64,
)
    requires
        workers.contains_key(id),
        limit_secs >= 0,
    ensures
        live_part(workers.insert(id, with_heartbeat(workers[id], now)), now, limit_secs).contains_key(
            id,
        ),
{
    let fresh = with_heartbeat(workers[id], now);
    assert(!is_expired(fresh, now, limit_secs));
}

/// After a sweep no dead worker remains, no live worker is lost, and a
/// second sweep at the same instant changes nothing.
pub proof fn law_sweep_keeps_exactly_the_live(
    workers: Map<Seq<char>, WorkerInfo>,
    now: Timestamp,
    limit_secs: i64,
)
    ensures
        forall|k: Seq<char>| #[trigger]
            live_part(workers, now, limit_secs).contains_key(k) <==> (workers.contains_key(k)
                && !is_expired(workers[k], now, limit_secs)),
        forall|k: Seq<char>| #[trigger]
            live_part(workers, now, limit_secs).contains_key(k) ==> live_part(
                workers,
                now,
                limit_secs,
            )[k] == workers[k],
        live_part(live_part(workers, now, limit_secs), now, limit_secs) == live_part(
            workers,
            now,
            limit_secs,
        ),
{
    assert(live_part(live_part(workers, now, limit_secs), now, limit_secs) =~= live_part(
        workers,
        now,
        limit_secs,
    ));
}

/// A feedback pass fails exactly when some loop from the step fires and names
/// a missing step, and it then reports the first such loop's target.
pub proof fn law_feedback_fails_only_on_missing_targets(
    loops: Seq<FeedbackLoop>,
    steps: Seq<Step>,
    step_id: u128,
    fires: Seq<bool>,
)
    ensures
        first_missing_target(loops, steps, step_id, fires) is None <==> forall|k: int|
            0 <= k < loops.len() && (#[trigger] loops[k]).source_step_id == step_id && fires_at(
                fires,
                k,
            ) ==> has_step(steps, loops[k].target_step_id),
        first_missing_target(loops, steps, step_id, fires) matches Some(t) ==> exists|k: int|
            0 <= k < loops.len() && (#[trigger] loops[k]).source_step_id == step_id && fires_at(
                fires,
                k,
            ) && !has_step(steps, loops[k].target_step_id) && loops[k].target_step_id == t
                && forall|j: int|
                0 <= j < k && loops[j].source_step_id == step_id && fires_at(fires, j) ==> has_step(
                    steps,
                    loops[j].target_step_id,
                ),
    decreases loops.len(),
{
    if loops.len() > 0 {
        let rest = loops.drop_last();
        law_feedback_fails_only_on_missing_targets(rest, steps, step_id, fires);
        assert forall|k: int| 0 <= k < rest.len() implies rest[k] == loops[k] by {}
        let last = loops.len() - 1;
        assert(loops[last] == loops.last());
        if first_missing_target(rest, steps, step_id, fires) is None {
            if first_missing_target(loops, steps, step_id, fires) is None {
                assert forall|k: int|
                    0 <= k < loops.len() && (#[trigger] loops[k]).source_step_id == step_id
                        && fires_at(fires, k) implies has_step(steps, loops[k].target_step_id) by {
                    if k < rest.len() {
                        assert(rest[k] == loops[k]);
                    }
                }
            } else {
                assert(loops[last].source_step_id == step_id && fires_at(fires, last) && !has_step(
                    steps,
                    loops[last].target_step_id,
                ));
                assert forall|j: int|
                    0 <= j < last && loops[j].source_step_id == step_id && fires_at(
                        fires,
                        j,
                    ) implies has_step(steps, loops[j].target_step_id) by {
                    assert(rest[j] == loops[j]);
                }
            }
        } else {
            let t = first_missing_target(rest, steps, step_id, fires)->0;
            let k = choose|k: int|
                0 <= k < rest.len() && (#[trigger] rest[k]).source_step_id == step_id && fires_at(
                    fires,
                    k,
                ) && !has_step(steps, rest[k].target_step_id) && rest[k].target_step_id == t
                    && forall|j: int|
                    0 <= j < k && rest[j].source_step_id == step_id && fires_at(fires, j)
                        ==> has_step(steps, rest[j].target_step_id);
            assert(loops[k] == rest[k]);
            assert forall|j: int|
                0 <= j < k && loops[j].source_step_id == step_id && fires_at(fires, j) implies has_step(
                    steps,
                    loops[j].target_step_id,
                ) by {
                assert(rest[j] == loops[j]);
            }
        }
    }
}

/// Feedback from a step that no loop starts at always succeeds once the
/// instance and its workflow are found.
pub proof fn law_feedback_without_loops_succeeds(
    loops: Seq<FeedbackLoop>,
    steps: Seq<Step>,
    step_id: u128,
    fires: Seq<bool>,
)
    requires
        forall|k: int| 0 <= k < loops.len() ==> (#[trigger] loops[k]).source_step_id != step_id,
    ensures
        first_missing_target(loops, steps, step_id, fires) is None,
{
    law_feedback_fails_only_on_missing_targets(loops, steps, step_id, fires);
}

/// Manual loops always fire and custom loops never do, whatever reading is
/// given.
pub proof fn law_manual_fires_custom_does_not(
    instance: WorkflowInstance,
    feedback: FeedbackLoop,
    reading: Option<bool>,
)
    ensures
        feedback.condition is Manual ==> condition_fires(instance, feedback, reading),
        feedback.condition is Custom ==> !condition_fires(instance, feedback, reading),
{
}

/// When every feedback loop of the instance's workflow is manual, the
/// engine's feedback pass answers as the scheduler's does, whatever metric
/// readings are given.
pub proof fn law_manual_loops_agree_with_scheduler(
    storage: &InMemoryStorage,
    instance_id: u128,
    step_id: u128,
    readings: Seq<Option<bool>>,
)
    requires
        storage.instances().contains_key(instance_id),
        storage.workflows().contains_key(storage.instances()[instance_id].workflow_id),
        forall|k: int|
            0 <= k < storage.workflows()[storage.instances()[instance_id].workflow_id].feedback_loops@.len()
                ==> (#[trigger] storage.workflows()[storage.instances()[instance_id].workflow_id].feedback_loops@[k]).condition is Manual,
    ensures
        engine_feedback(storage, instance_id, step_id, readings) == scheduler_feedback(
            storage,
            instance_id,
            step_id,
        ),
{
    let inst = storage.instances()[instance_id];
    let loops = storage.workflows()[inst.workflow_id].feedback_loops@;
    assert(firing_pattern(inst, loops, readings) =~= always_fire(loops.len()));
}


/// A metric-threshold loop fires exactly when its source step has recorded
/// an output and the reading of its metric is a yes, whatever the operator;
/// without a recorded output it never fires.
pub proof fn law_metric_loop_fires_on_yes(
    instance: WorkflowInstance,
    feedback: FeedbackLoop,
    reading: Option<bool>,
)
    requires
        feedback.condition is MetricThreshold,
    ensures
        (instance.step_results@.contains_key(feedback.source_step_id)
            && instance.step_results@[feedback.source_step_id].output is Some) ==> (condition_fires(
            instance,
            feedback,
            reading,
        ) <==> reading == Some(true)),
        !(instance.step_results@.contains_key(feedback.source_step_id)
            && instance.step_results@[feedback.source_step_id].output is Some) ==> !condition_fires(
            instance,
            feedback,
            reading,
        ),
{
}

/// The initial steps are exactly the steps without dependencies: every step
/// with no dependencies is listed, every listed identifier is such a step,
/// and no more identifiers are listed than there are steps.
pub proof fn law_initial_steps_are_all_steps_without_dependencies(steps: Seq<Step>)
    ensures
        forall|j: int|
            0 <= j < steps.len() && (#[trigger] steps[j]).dependencies@.len() == 0
                ==> initial_step_ids(steps).contains(steps[j].id),
        forall|k: int|
            0 <= k < initial_step_ids(steps).len() ==> is_initial_step(
                steps,
                #[trigger] initial_step_ids(steps)[k],
            ),
        initial_step_ids(steps).len() <= steps.len(),
    decreases steps.len(),
{
    lemma_initial_ids_are_steps(steps);
    if steps.len() > 0 {
        let rest = steps.drop_last();
        law_initial_steps_are_all_steps_without_dependencies(rest);
        let ids = initial_step_ids(steps);
        let rest_ids = initial_step_ids(rest);
        let last = steps.len() - 1;
        assert(steps[last] == steps.last());
        assert forall|j: int|
            0 <= j < steps.len() && (#[trigger] steps[j]).dependencies@.len() == 0 implies ids.contains(
            steps[j].id,
        ) by {
            if j < last {
                assert(rest[j] == steps[j]);
                assert(rest_ids.contains(steps[j].id));
                let m = choose|m: int| 0 <= m < rest_ids.len() && rest_ids[m] == steps[j].id;
                if steps.last().dependencies@.len() == 0 {
                    assert(ids == rest_ids.push(steps.last().id));
                    assert(ids[m] == rest_ids[m]);
                } else {
                    assert(ids == rest_ids);
                }
            } else {
                assert(ids == rest_ids.push(steps.last().id));
                assert(ids[ids.len() - 1] == steps[j].id);
            }
        }
    }
}

/// The time between two instants is the difference of their seconds in
/// nanoseconds plus the difference of their nanoseconds; in particular two
/// instants with the same sub-second part lie a whole number of seconds
/// apart, and shifting both by the same amount keeps the gap.
pub proof fn law_gap_between_instants(later: Timestamp, earlier: Timestamp)
    ensures
        later.nanos_since(earlier) == (later.secs - earlier.secs) * 1_000_000_000 + (later.nanos
            - earlier.nanos),
        later.nanos == earlier.nanos ==> later.nanos_since(earlier) == (later.secs - earlier.secs)
            * 1_000_000_000,
        earlier.nanos_since(later) == -later.nanos_since(earlier),
{
}

/// A worker counts as dead exactly when more than `limit_secs` seconds of
/// real time separate its last heartbeat from `now`.
pub proof fn law_expiry_is_real_elapsed_time(info: WorkerInfo, now: Timestamp, limit_secs: i64)
    ensures
        is_expired(info, now, limit_secs) <==> (now.secs - info.last_heartbeat.secs) * 1_000_000_000
            + (now.nanos - info.last_heartbeat.nanos) > limit_secs * 1_000_000_000,
{
}

/// The result recorded when a task starts names the task's step, is
/// running, belongs to the worker and carries no output or error; once
/// stored under that step it is read back with that step's identifier.
pub proof fn law_running_result_names_its_step(
    before: WorkflowInstance,
    after: WorkflowInstance,
    result: StepResult,
    step_id: u128,
    worker_id: Seq<char>,
    started: Timestamp,
    now: Timestamp,
)
    requires
        is_running_result(result, step_id, worker_id, started),
        records_step_result(before, after, step_id, result, now),
    ensures
        result.step_id == step_id,
        result.status == StepStatus::Running,
        result.worker_id matches Some(w) && w@ == worker_id,
        result.started_at == Some(started),
        result.output is None && result.error is None && result.completed_at is None,
        after.step_results@.contains_key(step_id),
        after.step_results@[step_id].step_id == step_id,
        after.step_results@[step_id].status == StepStatus::Running,
{
}

/// The scheduler's feedback pass fires every loop that starts at the step,
/// whatever its condition: once the instance and its workflow are found, it
/// fails exactly when some loop from the step names a step the workflow
/// lacks, and then reports the target of the first such loop.
pub proof fn law_scheduler_feedback_fires_every_loop(
    storage: &InMemoryStorage,
    instance_id: u128,
    step_id: u128,
)
    requires
        storage.instances().contains_key(instance_id),
        storage.workflows().contains_key(storage.instances()[instance_id].workflow_id),
    ensures
        ({
            let workflow = storage.workflows()[storage.instances()[instance_id].workflow_id];
            let loops = workflow.feedback_loops@;
            let steps = workflow.steps@;
            &&& scheduler_feedback(storage, instance_id, step_id) is Ok <==> forall|k: int|
                0 <= k < loops.len() && (#[trigger] loops[k]).source_step_id == step_id ==> has_step(
                    steps,
                    loops[k].target_step_id,
                )
            &&& scheduler_feedback(storage, instance_id, step_id) is Err ==> exists|k: int|
                0 <= k < loops.len() && (#[trigger] loops[k]).source_step_id == step_id && !has_step(
                    steps,
                    loops[k].target_step_id,
                ) && scheduler_feedback(storage, instance_id, step_id) == Err::<(), Seq<char>>(
                    with_id("Step not found: "@, loops[k].target_step_id),
                ) && forall|m: int|
                    0 <= m < k && loops[m].source_step_id == step_id ==> has_step(
                        steps,
                        loops[m].target_step_id,
                    )
        }),
{
    let workflow = storage.workflows()[storage.instances()[instance_id].workflow_id];
    let loops = workflow.feedback_loops@;
    let steps = workflow.steps@;
    let fires = always_fire(loops.len());
    law_feedback_fails_only_on_missing_targets(loops, steps, step_id, fires);
    assert forall|k: int| 0 <= k < loops.len() implies fires_at(fires, k) by {}
    let answer = scheduler_feedback(storage, instance_id, step_id);
    assert(answer == crate::scheduler::feedback_pass(loops, steps, step_id, fires));
    if first_missing_target(loops, steps, step_id, fires) is None {
        assert forall|k: int|
            0 <= k < loops.len() && (#[trigger] loops[k]).source_step_id == step_id implies has_step(
            steps,
            loops[k].target_step_id,
        ) by {
            assert(fires_at(fires, k));
        }
    } else {
        let t = first_missing_target(loops, steps, step_id, fires)->0;
        let k = choose|k: int|
            0 <= k < loops.len() && (#[trigger] loops[k]).source_step_id == step_id && fires_at(
                fires,
                k,
            ) && !has_step(steps, loops[k].target_step_id) && loops[k].target_step_id == t
                && forall|j: int|
                0 <= j < k && loops[j].source_step_id == step_id && fires_at(fires, j) ==> has_step(
                    steps,
                    loops[j].target_step_id,
                );
        assert forall|m: int| 0 <= m < k && loops[m].source_step_id == step_id implies has_step(
            steps,
            loops[m].target_step_id,
        ) by {
            assert(fires_at(fires, m));
        }
        assert(answer == Err::<(), Seq<char>>(with_id("Step not found: "@, t)));
    }
}

/// The initial steps, in order, are what remains of the workflow's steps
/// when those with dependencies are dropped, each taken by its identifier.
pub proof fn law_initial_steps_keep_workflow_order(steps: Seq<Step>)
    ensures
        initial_step_ids(steps) == steps.filter_map(
            |s: Step|
                if s.dependencies@.len() == 0 {
                    Some(s.id)
                } else {
                    None
                },
        ),
    decreases steps.len(),
{
    if steps.len() > 0 {
        law_initial_steps_keep_workflow_order(steps.drop_last());
        assert(initial_step_ids(steps.drop_last()).push(steps.last().id) =~= initial_step_ids(
            steps.drop_last(),
        ) + seq![steps.last().id]);
    }
}

/// The engine's feedback pass fires, among the loops that start at the
/// step, exactly those whose condition holds with the reading given at their
/// own position: once the instance and its workflow are found, it fails
/// exactly when such a loop names a step the workflow lacks, and then
/// reports the target of the first one.
pub proof fn law_engine_feedback_fires_holding_conditions(
    storage: &InMemoryStorage,
    instance_id: u128,
    step_id: u128,
    readings: Seq<Option<bool>>,
)
    requires
        storage.instances().contains_key(instance_id),
        storage.workflows().contains_key(storage.instances()[instance_id].workflow_id),
    ensures
        ({
            let inst = storage.instances()[instance_id];
            let workflow = storage.workflows()[inst.workflow_id];
            let loops = workflow.feedback_loops@;
            let steps = workflow.steps@;
            &&& engine_feedback(storage, instance_id, step_id, readings) is Ok <==> forall|k: int|
                0 <= k < loops.len() && (#[trigger] loops[k]).source_step_id == step_id
                    && condition_fires(inst, loops[k], if k < readings.len() { readings[k] } else { None })
                    ==> has_step(steps, loops[k].target_step_id)
            &&& engine_feedback(storage, instance_id, step_id, readings) is Err ==> exists|k: int|
                0 <= k < loops.len() && (#[trigger] loops[k]).source_step_id == step_id
                    && condition_fires(inst, loops[k], if k < readings.len() { readings[k] } else { None })
                    && !has_step(steps, loops[k].target_step_id)
                    && engine_feedback(storage, instance_id, step_id, readings) == Err::<(), Seq<char>>(
                    with_id("Step not found: "@, loops[k].target_step_id),
                )
        }),
{
    let inst = storage.instances()[instance_id];
    let workflow = storage.workflows()[inst.workflow_id];
    let loops = workflow.feedback_loops@;
    let steps = workflow.steps@;
    let fires = firing_pattern(inst, loops, readings);
    law_feedback_fails_only_on_missing_targets(loops, steps, step_id, fires);
    assert forall|k: int| 0 <= k < loops.len() implies fires_at(fires, k) == condition_fires(
        inst,
        #[trigger] loops[k],
        if k < readings.len() { readings[k] } else { None },
    ) by {}
    let answer = engine_feedback(storage, instance_id, step_id, readings);
    assert(answer == crate::scheduler::feedback_pass(loops, steps, step_id, fires));
    if first_missing_target(loops, steps, step_id, fires) is Some {
        let t = first_missing_target(loops, steps, step_id, fires)->0;
        let k = choose|k: int|
            0 <= k < loops.len() && (#[trigger] loops[k]).source_step_id == step_id && fires_at(
                fires,
                k,
            ) && !has_step(steps, loops[k].target_step_id) && loops[k].target_step_id == t
                && forall|j: int|
                0 <= j < k && loops[j].source_step_id == step_id && fires_at(fires, j) ==> has_step(
                    steps,
                    loops[j].target_step_id,
                );
        assert(answer == Err::<(), Seq<char>>(with_id("Step not found: "@, t)));
    }
}

/// A finished step is completed with its output when the task succeeded and
/// failed with its error when it did not; it keeps its step, its worker and
/// its start, and records when it ended.
pub proof fn law_finished_result_reflects_outcome(
    before: StepResult,
    after: StepResult,
    outcome: Result<String, String>,
    completed_at: Timestamp,
)
    requires
        crate::worker::is_finished_result(before, after, outcome, completed_at),
    ensures
        after.step_id == before.step_id,
        after.worker_id == before.worker_id,
        after.started_at == before.started_at,
        after.completed_at == Some(completed_at),
        outcome is Ok ==> after.status == StepStatus::Completed && after.output == Some(outcome->Ok_0),
        outcome is Err ==> after.status == StepStatus::Failed && after.error == Some(outcome->Err_0),
{
}

/// A heartbeat moves a worker's last heartbeat to the given instant and
/// keeps its identifier and capabilities; a fresh registration holds the
/// given identifier, instant and capabilities.
pub proof fn law_worker_entries(info: WorkerInfo, id: String, now: Timestamp, capabilities: Vec<TaskType>)
    ensures
        with_heartbeat(info, now).last_heartbeat == now,
        with_heartbeat(info, now).id == info.id,
        with_heartbeat(info, now).capabilities == info.capabilities,
        new_worker_info(id, now, capabilities).id == id,
        new_worker_info(id, now, capabilities).last_heartbeat == now,
        new_worker_info(id, now, capabilities).capabilities == capabilities,
{
}

/// A freshly started instance is pending, belongs to its workflow, carries
/// its own identifier and has no step results.
pub proof fn law_new_instance_is_pending_and_empty(inst: WorkflowInstance, id: u128, workflow_id: u128)
    requires
        is_new_instance(inst, id, workflow_id),
    ensures
        inst.id == id,
        inst.workflow_id == workflow_id,
        inst.status == InstanceStatus::Pending,
        inst.step_results@.dom().is_empty(),
{
}

/// A metric query is asked exactly for a metric-threshold loop whose source
/// step has recorded an output, and it carries that output together with the
/// loop's metric, threshold and operator.
pub proof fn law_metric_query_carries_loop_and_output(inst: WorkflowInstance, feedback: FeedbackLoop)
    ensures
        query_for(inst, feedback) is Some <==> (feedback.condition is MetricThreshold
            && inst.step_results@.contains_key(feedback.source_step_id)
            && inst.step_results@[feedback.source_step_id].output is Some),
        query_for(inst, feedback) is Some ==> ({
            let q = query_for(inst, feedback)->0;
            &&& Some(q.0) == inst.step_results@[feedback.source_step_id].output
            &&& feedback.condition matches FeedbackCondition::MetricThreshold {
                metric,
                threshold_bits,
                operator,
            } && q.1 == metric && q.2 == threshold_bits && q.3 == operator
        }),
{
}

/// The feedback passes of the engine and of the scheduler report a missing
/// instance, then a missing workflow, with the same message as the lookup
/// of feedback queries; when both are found the lookup reports nothing.
pub proof fn law_lookup_failure_matches_feedback_errors(
    storage: &InMemoryStorage,
    instance_id: u128,
    step_id: u128,
    readings: Seq<Option<bool>>,
)
    ensures
        !storage.instances().contains_key(instance_id) ==> lookup_failure(storage, instance_id)
            == Some(with_id("Instance not found: "@, instance_id)),
        storage.instances().contains_key(instance_id) && !storage.workflows().contains_key(
            storage.instances()[instance_id].workflow_id,
        ) ==> lookup_failure(storage, instance_id) == Some(
            with_id("Workflow not found: "@, storage.instances()[instance_id].workflow_id),
        ),
        lookup_failure(storage, instance_id) is None <==> (storage.instances().contains_key(
            instance_id,
        ) && storage.workflows().contains_key(storage.instances()[instance_id].workflow_id)),
        lookup_failure(storage, instance_id) matches Some(m) ==> engine_feedback(
            storage,
            instance_id,
            step_id,
            readings,
        ) == Err::<(), Seq<char>>(m) && scheduler_feedback(storage, instance_id, step_id) == Err::<
            (),
            Seq<char>,
        >(m),
{
}

} // verus!
