//! The scheduler: leader election, the worker table, turning steps into
//! tasks, and re-running steps when feedback arrives.
use crate::clock::{current_time, Timestamp};
use crate::consensus::SimpleConsensus;
use crate::ids::new_id;
use crate::model::{
    find_step, has_step, initial_step_ids, initial_steps, is_first_step_with, is_initial_step,
    lemma_initial_ids_are_steps, FeedbackLoop, Step, TaskType, Workflow, WorkflowInstance,
    WorkerTask,
};
use crate::registry::{live_part, WorkerInfo, WorkerRegistry};
use crate::storage::{message_with_id, with_id, InMemoryStorage};
use vstd::prelude::*;
use vstd::string::StringExecFns;

verus! {

/// Seconds without a heartbeat after which a worker counts as dead.
pub const WORKER_TIMEOUT_SECS: i64 = 30;

/// The node identifier this scheduler runs as.
pub const LOCAL_NODE_ID: usize = 1;

/// The view of a `Result<(), String>`: the error as its characters.
pub open spec fn result_view(r: Result<(), String>) -> Result<(), Seq<char>> {
    match r {
        Ok(_) => Ok(()),
        Err(e) => Err(e@),
    }
}

/// Whether loop `k` of a feedback pass fires: positions past the end of
/// `fires` do not.
pub open spec fn fires_at(fires: Seq<bool>, k: int) -> bool {
    0 <= k < fires.len() && fires[k]
}

/// Walking `loops` in order, the target of the first loop that starts at
/// `step_id`, fires, and names a step that `steps` lacks; `None` when every
/// firing loop from `step_id` names an existing step.
pub open spec fn first_missing_target(
    loops: Seq<FeedbackLoop>,
    steps: Seq<Step>,
    step_id: u128,
    fires: Seq<bool>,
) -> Option<u128>
    decreases loops.len(),
{
    if loops.len() == 0 {
        None
    } else {
        match first_missing_target(loops.drop_last(), steps, step_id, fires) {
            Some(t) => Some(t),
            None => {
                let k = loops.len() - 1;
                if loops[k].source_step_id == step_id && fires_at(fires, k) && !has_step(
                    steps,
                    loops[k].target_step_id,
                ) {
                    Some(loops[k].target_step_id)
                } else {
                    None
                }
            },
        }
    }
}

/// What a feedback pass over `loops` answers: the error for the first firing
/// loop whose target step is missing, or success.
pub open spec fn feedback_pass(
    loops: Seq<FeedbackLoop>,
    steps: Seq<Step>,
    step_id: u128,
    fires: Seq<bool>,
) -> Result<(), Seq<char>> {
    match first_missing_target(loops, steps, step_id, fires) {
        Some(t) => Err(with_id("Step not found: "@, t)),
        None => Ok(()),
    }
}

/// Once a prefix of the loops has a missing target, the whole sequence has
/// the same one.
pub proof fn lemma_first_missing_prefix(
    loops: Seq<FeedbackLoop>,
    steps: Seq<Step>,
    step_id: u128,
    fires: Seq<bool>,
    j: int,
)
    requires
        0 <= j <= loops.len(),
        first_missing_target(loops.take(j), steps, step_id, fires) is Some,
    ensures
        first_missing_target(loops, steps, step_id, fires) == first_missing_target(
            loops.take(j),
            steps,
            step_id,
            fires,
        ),
    decreases loops.len() - j,
{
    if j == loops.len() {
        assert(loops.take(j) =~= loops);
    } else {
        assert(loops.take(j + 1).drop_last() =~= loops.take(j));
        assert(first_missing_target(loops.take(j + 1), steps, step_id, fires)
            == first_missing_target(loops.take(j), steps, step_id, fires));
        lemma_first_missing_prefix(loops, steps, step_id, fires, j + 1);
    }
}

/// The task that runs step `step_id` of instance `instance_id` under the
/// identifier `task_id`, taking over the step's task type and configuration; the
/// error `Step not found: <step_id>` when the workflow has no such step.
pub fn make_task(workflow: &Workflow, instance_id: u128, step_id: u128, task_id: u128) -> (r:
    Result<WorkerTask, String>)
    ensures
        r is Ok <==> has_step(workflow.steps@, step_id),
        match r {
            Ok(t) => exists|i: int|
                is_first_step_with(workflow.steps@, step_id, i) && t.id == task_id && t.step_id
                    == step_id && t.instance_id == instance_id && t.task_type
                    == workflow.steps@[i].task_type && t.config@ == workflow.steps@[i].config@,
            Err(e) => e@ == with_id("Step not found: "@, step_id),
        },
{
    match find_step(&workflow.steps, step_id) {
        Some(i) => {
            let step = &workflow.steps[i];
            Ok(
                WorkerTask {
                    id: task_id,
                    step_id,
                    instance_id,
                    task_type: step.task_type.duplicate(),
                    config: step.config.clone(),
                },
            )
        },
        None => Err(message_with_id("Step not found: ", step_id)),
    }
}

/// Hands out steps to workers and keeps track of them.
pub struct Scheduler {
    pub workers: WorkerRegistry,
    pub consensus: SimpleConsensus,
}

impl Scheduler {
    /// A scheduler running as node 1 of a three-node cluster, which makes it
    /// the leader, with no workers registered. The message-queue address is
    /// accepted but not used. Never fails.
    pub fn new(amqp_url: &str) -> (r: Result<Scheduler, String>)
        ensures
            match r {
                Ok(s) => {
                    &&& s.workers@ == Map::<Seq<char>, WorkerInfo>::empty()
                    &&& s.consensus.node() == 1
                    &&& s.consensus.leader()
                    &&& s.consensus.current_term() == 1
                    &&& s.consensus.members().len() == 3
                    &&& s.consensus.members()[0]@ == "127.0.0.1:8001"@
                    &&& s.consensus.members()[1]@ == "127.0.0.1:8002"@
                    &&& s.consensus.members()[2]@ == "127.0.0.1:8003"@
                },
                Err(_) => false,
            },
    {
        let mut nodes: Vec<String> = Vec::new();
        nodes.push(String::from_str("127.0.0.1:8001"));
        nodes.push(String::from_str("127.0.0.1:8002"));
        nodes.push(String::from_str("127.0.0.1:8003"));
        let consensus = SimpleConsensus::new(LOCAL_NODE_ID, nodes);
        Ok(Scheduler { workers: WorkerRegistry::new(), consensus })
    }

    /// Proposes this node (node 1) as leader. Afterwards this node leads
    /// exactly when its identifier is 1. Never fails. (Starting the leader's
    /// periodic heartbeat is left to the caller.)
    pub fn start_leader_election(&mut self) -> (r: Result<(), String>)
        ensures
            r is Ok,
            final(self).consensus.leader() == (old(self).consensus.node() == LOCAL_NODE_ID),
            final(self).consensus.node() == old(self).consensus.node(),
            final(self).consensus.members() == old(self).consensus.members(),
            final(self).consensus.current_term() == old(self).consensus.current_term(),
            final(self).workers@ == old(self).workers@,
    {
        match self.consensus.propose_leader(LOCAL_NODE_ID) {
            Ok(_) => Ok(()),
            Err(e) => Err(e),
        }
    }

    /// Builds the task for step `step_id` of instance `instance_id` under a
    /// fresh identifier; the error `Step not found: <step_id>` when the
    /// workflow has no such step. The task is not published anywhere.
    pub fn schedule_step(&self, workflow: &Workflow, instance_id: u128, step_id: u128) -> (r:
        Result<(), String>)
        ensures
            r is Ok <==> has_step(workflow.steps@, step_id),
            r is Err ==> result_view(r) == Err::<(), Seq<char>>(with_id("Step not found: "@, step_id)),
    {
        let task_id = new_id();
        match make_task(workflow, instance_id, step_id, task_id) {
            Ok(_task) => Ok(()),
            Err(e) => Err(e),
        }
    }

    /// Schedules step `step_id` again; the same as `schedule_step`.
    pub fn reschedule_step(&self, workflow: &Workflow, instance_id: u128, step_id: u128) -> (r:
        Result<(), String>)
        ensures
            r is Ok <==> has_step(workflow.steps@, step_id),
            r is Err ==> result_view(r) == Err::<(), Seq<char>>(with_id("Step not found: "@, step_id)),
    {
        self.schedule_step(workflow, instance_id, step_id)
    }

    /// Schedules every initial step (one with no dependencies) of `workflow`
    /// for `instance`. Only the leader schedules: on any other node the
    /// answer is the error `Not the leader node - cannot schedule workflow`.
    pub fn schedule_workflow(&self, workflow: &Workflow, instance: &WorkflowInstance) -> (r:
        Result<(), String>)
        ensures
            r is Ok <==> self.consensus.leader(),
            r is Err ==> result_view(r) == Err::<(), Seq<char>>(
                "Not the leader node - cannot schedule workflow"@,
            ),
    {
        if !self.consensus.is_leader() {
            return Err(String::from_str("Not the leader node - cannot schedule workflow"));
        }
        let initial = initial_steps(workflow);
        proof {
            lemma_initial_ids_are_steps(workflow.steps@);
        }
        let mut k: usize = 0;
        while k < initial.len()
            invariant
                k <= initial.len(),
                initial@ == initial_step_ids(workflow.steps@),
                forall|m: int|
                    0 <= m < initial_step_ids(workflow.steps@).len() ==> is_initial_step(
                        workflow.steps@,
                        #[trigger] initial_step_ids(workflow.steps@)[m],
                    ),
            decreases initial.len() - k,
        {
            let step_id = initial[k];
            proof {
                assert(is_initial_step(workflow.steps@, initial@[k as int]));
            }
            match self.schedule_step(workflow, instance.id, step_id) {
                Ok(_) => {},
                Err(e) => {
                    return Err(e);
                },
            }
            k = k + 1;
        }
        Ok(())
    }

    /// Reschedules the target of every feedback loop of `workflow` that starts
    /// at `step_id` and fires (`fires[k]` for loop `k`; loops past the end of
    /// `fires` do not), in order, stopping at the first target that is not a
    /// step of the workflow.
    pub fn reschedule_fired(
        &self,
        workflow: &Workflow,
        instance_id: u128,
        step_id: u128,
        fires: &Vec<bool>,
    ) -> (r: Result<(), String>)
        ensures
            result_view(r) == feedback_pass(workflow.feedback_loops@, workflow.steps@, step_id, fires@),
    {
        let ghost loops = workflow.feedback_loops@;
        let mut k: usize = 0;
        proof {
            assert(loops.take(0) =~= Seq::<FeedbackLoop>::empty());
        }
        while k < workflow.feedback_loops.len()
            invariant
                k <= loops.len(),
                loops == workflow.feedback_loops@,
                first_missing_target(loops.take(k as int), workflow.steps@, step_id, fires@)
                    is None,
            decreases loops.len() - k,
        {
            proof {
                assert(loops.take(k as int + 1).drop_last() =~= loops.take(k as int));
            }
            let fire = k < fires.len() && fires[k];
            let feedback = &workflow.feedback_loops[k];
            if feedback.source_step_id == step_id && fire {
                match self.reschedule_step(workflow, instance_id, feedback.target_step_id) {
                    Ok(_) => {},
                    Err(e) => {
                        proof {
                            let pre = loops.take(k as int + 1);
                            assert(pre[k as int] == loops[k as int]);
                            assert(first_missing_target(pre, workflow.steps@, step_id, fires@)
                                == Some(loops[k as int].target_step_id));
                            lemma_first_missing_prefix(
                                loops,
                                workflow.steps@,
                                step_id,
                                fires@,
                                k as int + 1,
                            );
                        }
                        return Err(e);
                    },
                }
            }
            k = k + 1;
        }
        proof {
            assert(loops.take(k as int) =~= loops);
        }
        Ok(())
    }

    /// Registers worker `worker_id` with `capabilities` and last heartbeat
    /// `now`, replacing any earlier registration under that identifier.
    pub fn register_worker_at(
        &mut self,
        worker_id: String,
        capabilities: Vec<TaskType>,
        now: Timestamp,
    ) -> (r: Result<(), String>)
        ensures
            r is Ok,
            final(self).workers@ == old(self).workers@.insert(
                worker_id@,
                new_worker_info(worker_id, now, capabilities),
            ),
            final(self).consensus == old(self).consensus,
    {
        let info = WorkerInfo { id: worker_id, last_heartbeat: now, capabilities };
        self.workers.register(info);
        Ok(())
    }

    /// Registers worker `worker_id` with `capabilities`, stamped with the
    /// current time, replacing any earlier registration under that
    /// identifier.
    pub fn register_worker(&mut self, worker_id: String, capabilities: Vec<TaskType>) -> (r: Result<
        (),
        String,
    >)
        ensures
            r is Ok,
            exists|now: Timestamp|
                final(self).workers@ == old(self).workers@.insert(
                    worker_id@,
                    new_worker_info(worker_id, now, capabilities),
                ),
            final(self).consensus == old(self).consensus,
    {
        let now = current_time();
        self.register_worker_at(worker_id, capabilities, now)
    }

    /// Records a heartbeat at `now` for worker `worker_id`; the error
    /// `Worker not found: <worker_id>` when no such worker is registered.
    pub fn worker_heartbeat_at(&mut self, worker_id: &str, now: Timestamp) -> (r: Result<
        (),
        String,
    >)
        ensures
            r is Ok <==> old(self).workers@.contains_key(worker_id@),
            r is Ok ==> final(self).workers@ == old(self).workers@.insert(
                worker_id@,
                with_heartbeat(old(self).workers@[worker_id@], now),
            ),
            r is Err ==> final(self).workers@ == old(self).workers@ && result_view(r) == Err::<
                (),
                Seq<char>,
            >("Worker not found: "@ + worker_id@),
            final(self).consensus == old(self).consensus,
    {
        let key = worker_id.to_string();
        if self.workers.touch(&key, now) {
            Ok(())
        } else {
            let mut m = String::from_str("Worker not found: ");
            m.append(worker_id);
            Err(m)
        }
    }

    /// Records a heartbeat, stamped with the current time, for worker
    /// `worker_id`; the error `Worker not found: <worker_id>` when no such
    /// worker is registered.
    pub fn worker_heartbeat(&mut self, worker_id: &str) -> (r: Result<(), String>)
        ensures
            r is Ok <==> old(self).workers@.contains_key(worker_id@),
            r is Ok ==> exists|now: Timestamp|
                final(self).workers@ == old(self).workers@.insert(
                    worker_id@,
                    with_heartbeat(old(self).workers@[worker_id@], now),
                ),
            r is Err ==> final(self).workers@ == old(self).workers@ && result_view(r) == Err::<
                (),
                Seq<char>,
            >("Worker not found: "@ + worker_id@),
            final(self).consensus == old(self).consensus,
    {
        let now = current_time();
        self.worker_heartbeat_at(worker_id, now)
    }

    /// Forgets every worker whose last heartbeat lies more than thirty
    /// seconds before `now`. Never fails.
    pub fn monitor_workers_at(&mut self, now: Timestamp) -> (r: Result<(), String>)
        ensures
            r is Ok,
            final(self).workers@ == live_part(old(self).workers@, now, WORKER_TIMEOUT_SECS),
            final(self).consensus == old(self).consensus,
    {
        self.workers.remove_expired(now, WORKER_TIMEOUT_SECS);
        Ok(())
    }

    /// Forgets every worker whose last heartbeat lies more than thirty
    /// seconds before the current time. Never fails.
    pub fn monitor_workers(&mut self) -> (r: Result<(), String>)
        ensures
            r is Ok,
            exists|now: Timestamp|
                final(self).workers@ == live_part(old(self).workers@, now, WORKER_TIMEOUT_SECS),
            final(self).consensus == old(self).consensus,
    {
        let now = current_time();
        self.monitor_workers_at(now)
    }

    /// Feedback from step `step_id` of instance `instance_id`: looks the
    /// instance and its workflow up in `storage` and reschedules the target
    /// of every feedback loop that starts at that step.
    pub fn process_feedback(&self, storage: &InMemoryStorage, instance_id: u128, step_id: u128) -> (r:
        Result<(), String>)
        ensures
            result_view(r) == scheduler_feedback(storage, instance_id, step_id),
            (storage.instances().contains_key(instance_id) && storage.workflows().contains_key(
                storage.instances()[instance_id].workflow_id,
            )) ==> (r is Ok <==> forall|k: int|
                0 <= k < storage.workflows()[storage.instances()[instance_id].workflow_id].feedback_loops@.len()
                    && (#[trigger] storage.workflows()[storage.instances()[instance_id].workflow_id].feedback_loops@[k]).source_step_id
                    == step_id ==> has_step(
                    storage.workflows()[storage.instances()[instance_id].workflow_id].steps@,
                    storage.workflows()[storage.instances()[instance_id].workflow_id].feedback_loops@[k].target_step_id,
                )),
    {
        proof {
            if storage.instances().contains_key(instance_id) && storage.workflows().contains_key(
                storage.instances()[instance_id].workflow_id,
            ) {
                crate::laws::law_scheduler_feedback_fires_every_loop(storage, instance_id, step_id);
            }
        }
        let instance = match storage.get_instance(instance_id) {
            Ok(i) => i,
            Err(e) => {
                return Err(e);
            },
        };
        let workflow = match storage.get_workflow(instance.workflow_id) {
            Ok(w) => w,
            Err(e) => {
                return Err(e);
            },
        };
        let mut fires: Vec<bool> = Vec::new();
        let mut k: usize = 0;
        while k < workflow.feedback_loops.len()
            invariant
                k <= workflow.feedback_loops.len(),
                fires@ == Seq::new(k as nat, |m: int| true),
            decreases workflow.feedback_loops.len() - k,
        {
            fires.push(true);
            k = k + 1;
        }
        proof {
            assert(fires@ =~= always_fire(workflow.feedback_loops@.len()));
        }
        self.reschedule_fired(workflow, instance.id, step_id, &fires)
    }
}

/// `info` with its last heartbeat set to `now`.
pub open spec fn with_heartbeat(info: WorkerInfo, now: Timestamp) -> WorkerInfo {
    WorkerInfo { last_heartbeat: now, ..info }
}

/// The entry of a freshly registered worker.
pub open spec fn new_worker_info(id: String, now: Timestamp, capabilities: Vec<TaskType>) -> WorkerInfo {
    WorkerInfo { id, last_heartbeat: now, capabilities }
}

/// Every one of `n` loops fires.
pub open spec fn always_fire(n: nat) -> Seq<bool> {
    Seq::new(n, |m: int| true)
}

/// What the scheduler's feedback pass answers: a missing instance or
/// workflow is reported as such; otherwise every loop from `step_id` fires.
pub open spec fn scheduler_feedback(storage: &InMemoryStorage, instance_id: u128, step_id: u128) -> Result<
    (),
    Seq<char>,
> {
    if !storage.instances().contains_key(instance_id) {
        Err(with_id("Instance not found: "@, instance_id))
    } else {
        let workflow_id = storage.instances()[instance_id].workflow_id;
        if !storage.workflows().contains_key(workflow_id) {
            Err(with_id("Workflow not found: "@, workflow_id))
        } else {
            let workflow = storage.workflows()[workflow_id];
            feedback_pass(
                workflow.feedback_loops@,
                workflow.steps@,
                step_id,
                always_fire(workflow.feedback_loops@.len()),
            )
        }
    }
}

} // verus!
