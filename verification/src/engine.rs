//! The workflow engine: starts instances of workflows and decides which
//! feedback loops fire.
use crate::clock::{current_time, Timestamp};
use crate::ids::new_id;
use crate::model::{
    FeedbackCondition, FeedbackLoop, InstanceStatus, StepResult, ThresholdOperator, Workflow,
    WorkflowInstance,
};
use crate::scheduler::{feedback_pass, result_view, Scheduler};
use crate::storage::{with_id, InMemoryStorage};
use std::collections::HashMap;
use vstd::prelude::*;

verus! {

broadcast use vstd::std_specs::hash::group_hash_axioms;

/// What it takes to evaluate a metric-threshold feedback loop: the source
/// step's output (JSON text), the metric to read from its top level, and the
/// threshold (bit pattern of a double) with its operator.
#[derive(Clone, Debug)]
pub struct MetricQuery {
    pub output: String,
    pub metric: String,
    pub threshold_bits: u64,
    pub operator: ThresholdOperator,
}

/// `inst` is a freshly started instance `id` of workflow `workflow_id`:
/// pending, with no step results yet.
pub open spec fn is_new_instance(inst: WorkflowInstance, id: u128, workflow_id: u128) -> bool {
    &&& inst.id == id
    &&& inst.workflow_id == workflow_id
    &&& inst.status == InstanceStatus::Pending
    &&& inst.step_results@ == Map::<u128, StepResult>::empty()
}

/// The output recorded for step `step_id` in `inst`, if the step has a result
/// with an output.
pub open spec fn recorded_output(inst: WorkflowInstance, step_id: u128) -> Option<String> {
    if inst.step_results@.contains_key(step_id) {
        inst.step_results@[step_id].output
    } else {
        None
    }
}

/// The metric query that loop `feedback` needs answered for `inst`: present
/// for a metric-threshold loop whose source step has recorded an output.
pub open spec fn query_for(inst: WorkflowInstance, feedback: FeedbackLoop) -> Option<
    (String, String, u64, ThresholdOperator),
> {
    match feedback.condition {
        FeedbackCondition::MetricThreshold { metric, threshold_bits, operator } => {
            match recorded_output(inst, feedback.source_step_id) {
                Some(output) => Some((output, metric, threshold_bits, operator)),
                None => None,
            }
        },
        _ => None,
    }
}

/// Whether loop `feedback` fires for `inst`, given `reading`: whether the
/// metric compares with the threshold as required (`None` when the output
/// has no such numeric metric). Manual loops always fire; custom ones never
/// do; a metric loop fires only when its source step has an output and the
/// reading is a yes.
pub open spec fn condition_fires(
    inst: WorkflowInstance,
    feedback: FeedbackLoop,
    reading: Option<bool>,
) -> bool {
    match feedback.condition {
        FeedbackCondition::Manual => true,
        FeedbackCondition::Custom(_) => false,
        FeedbackCondition::MetricThreshold { .. } => recorded_output(
            inst,
            feedback.source_step_id,
        ) is Some && reading == Some(true),
    }
}

/// The reading given for loop `k`; `None` past the end of `readings`.
pub open spec fn reading_at(readings: Seq<Option<bool>>, k: int) -> Option<bool> {
    if 0 <= k < readings.len() {
        readings[k]
    } else {
        None
    }
}

/// For each loop of `loops`, whether it fires for `inst` with the readings.
pub open spec fn firing_pattern(
    inst: WorkflowInstance,
    loops: Seq<FeedbackLoop>,
    readings: Seq<Option<bool>>,
) -> Seq<bool> {
    Seq::new(loops.len(), |k: int| condition_fires(inst, loops[k], reading_at(readings, k)))
}

/// What the engine's feedback pass answers: a missing instance or workflow is
/// reported as such; otherwise every loop from `step_id` whose condition
/// holds has its target rescheduled, stopping at the first missing step.
pub open spec fn engine_feedback(
    storage: &InMemoryStorage,
    instance_id: u128,
    step_id: u128,
    readings: Seq<Option<bool>>,
) -> Result<(), Seq<char>> {
    if !storage.instances().contains_key(instance_id) {
        Err(with_id("Instance not found: "@, instance_id))
    } else {
        let inst = storage.instances()[instance_id];
        if !storage.workflows().contains_key(inst.workflow_id) {
            Err(with_id("Workflow not found: "@, inst.workflow_id))
        } else {
            let workflow = storage.workflows()[inst.workflow_id];
            feedback_pass(
                workflow.feedback_loops@,
                workflow.steps@,
                step_id,
                firing_pattern(inst, workflow.feedback_loops@, readings),
            )
        }
    }
}

/// Why the instance `instance_id` or its workflow cannot be looked up in
/// `storage`, if either is missing.
pub open spec fn lookup_failure(storage: &InMemoryStorage, instance_id: u128) -> Option<Seq<char>> {
    if !storage.instances().contains_key(instance_id) {
        Some(with_id("Instance not found: "@, instance_id))
    } else {
        let workflow_id = storage.instances()[instance_id].workflow_id;
        if !storage.workflows().contains_key(workflow_id) {
            Some(with_id("Workflow not found: "@, workflow_id))
        } else {
            None
        }
    }
}

/// The view of a metric query as a tuple of its fields.
pub open spec fn query_view(q: Option<MetricQuery>) -> Option<(String, String, u64, ThresholdOperator)> {
    match q {
        Some(q) => Some((q.output, q.metric, q.threshold_bits, q.operator)),
        None => None,
    }
}

/// Starts workflows and evaluates feedback over a scheduler and a store.
pub struct WorkflowEngine {
    pub scheduler: Scheduler,
    pub storage: InMemoryStorage,
}

impl WorkflowEngine {
    /// An engine over `scheduler` and `storage`.
    pub fn new(scheduler: Scheduler, storage: InMemoryStorage) -> (e: Self)
        ensures
            e.scheduler == scheduler,
            e.storage == storage,
    {
        WorkflowEngine { scheduler, storage }
    }

    /// Starts `workflow` as instance `instance_id` created at `created_at` and
    /// last updated at `updated_at`: stores the workflow and a pending
    /// instance with no step results, then schedules the workflow's initial
    /// steps. Answers `instance_id`, or the scheduler's refusal when this node
    /// does not lead (the workflow and the instance stay stored).
    pub fn start_workflow_with(
        &mut self,
        workflow: Workflow,
        instance_id: u128,
        created_at: Timestamp,
        updated_at: Timestamp,
    ) -> (r: Result<u128, String>)
        ensures
            final(self).storage.workflows() == old(self).storage.workflows().insert(
                workflow.id,
                workflow,
            ),
            final(self).storage.instances().dom() == old(self).storage.instances().dom().insert(
                instance_id,
            ),
            final(self).storage.instances().remove(instance_id) == old(
                self,
            ).storage.instances().remove(instance_id),
            is_new_instance(final(self).storage.instances()[instance_id], instance_id, workflow.id),
            final(self).storage.instances()[instance_id].created_at == created_at,
            final(self).storage.instances()[instance_id].updated_at == updated_at,
            final(self).scheduler == old(self).scheduler,
            r is Ok <==> old(self).scheduler.consensus.leader(),
            match r {
                Ok(id) => id == instance_id,
                Err(e) => e@ == "Not the leader node - cannot schedule workflow"@,
            },
    {
        let workflow_id = workflow.id;
        let instance = WorkflowInstance {
            id: instance_id,
            workflow_id,
            status: InstanceStatus::Pending,
            step_results: HashMap::new(),
            created_at,
            updated_at,
        };
        let _ = self.storage.save_workflow(workflow);
        let _ = self.storage.save_instance(instance);
        proof {
            assert(self.storage.instances().dom() =~= old(self).storage.instances().dom().insert(
                instance_id,
            ));
            assert(self.storage.instances().remove(instance_id) =~= old(
                self,
            ).storage.instances().remove(instance_id));
        }
        let stored_workflow = match self.storage.get_workflow(workflow_id) {
            Ok(w) => w,
            Err(e) => {
                return Err(e);
            },
        };
        let stored_instance = match self.storage.get_instance(instance_id) {
            Ok(i) => i,
            Err(e) => {
                return Err(e);
            },
        };
        match self.scheduler.schedule_workflow(stored_workflow, stored_instance) {
            Ok(_) => Ok(instance_id),
            Err(e) => Err(e),
        }
    }

    /// Starts `workflow` as a new instance with a fresh identifier, stamped
    /// with the current time: stores the workflow and a pending instance with
    /// no step results, then schedules the workflow's initial steps. Answers
    /// the instance's identifier, or the scheduler's refusal when this node
    /// does not lead (the workflow and the instance stay stored).
    pub fn start_workflow(&mut self, workflow: Workflow) -> (r: Result<u128, String>)
        ensures
            final(self).storage.workflows() == old(self).storage.workflows().insert(
                workflow.id,
                workflow,
            ),
            exists|id: u128|
                #[trigger] final(self).storage.instances().contains_key(id) && is_new_instance(
                    final(self).storage.instances()[id],
                    id,
                    workflow.id,
                ) && final(self).storage.instances().remove(id) == old(
                    self,
                ).storage.instances().remove(id) && (r matches Ok(i) ==> i == id),
            final(self).scheduler == old(self).scheduler,
            r is Ok <==> old(self).scheduler.consensus.leader(),
            r is Err ==> r->Err_0@ == "Not the leader node - cannot schedule workflow"@,
    {
        let instance_id = new_id();
        let created_at = current_time();
        let updated_at = current_time();
        let r = self.start_workflow_with(workflow, instance_id, created_at, updated_at);
        proof {
            assert(self.storage.instances().contains_key(instance_id));
        }
        r
    }

    /// The metric query that loop `feedback` needs answered for `instance`:
    /// present for a metric-threshold loop whose source step has recorded an
    /// output.
    pub fn metric_query(instance: &WorkflowInstance, feedback: &FeedbackLoop) -> (q: Option<
        MetricQuery,
    >)
        ensures
            query_view(q) == query_for(*instance, *feedback),
    {
        match &feedback.condition {
            FeedbackCondition::MetricThreshold { metric, threshold_bits, operator } => {
                match instance.step_results.get(&feedback.source_step_id) {
                    Some(result) => match &result.output {
                        Some(output) => Some(
                            MetricQuery {
                                output: output.clone(),
                                metric: metric.clone(),
                                threshold_bits: *threshold_bits,
                                operator: *operator,
                            },
                        ),
                        None => None,
                    },
                    None => None,
                }
            },
            _ => None,
        }
    }

    /// Whether loop `feedback` fires for `instance`, given `reading`: whether
    /// its metric compares with the threshold as required (`None` when the
    /// output holds no such numeric metric). Manual loops always fire, custom
    /// ones never; a metric loop fires when its source step has an output and
    /// the reading is a yes.
    pub fn evaluate_feedback_condition(
        instance: &WorkflowInstance,
        feedback: &FeedbackLoop,
        reading: Option<bool>,
    ) -> (r: bool)
        ensures
            r == condition_fires(*instance, *feedback, reading),
            feedback.condition is Manual ==> r,
            feedback.condition is Custom ==> !r,
            feedback.condition is MetricThreshold ==> (r <==> (instance.step_results@.contains_key(
                feedback.source_step_id,
            ) && instance.step_results@[feedback.source_step_id].output is Some && reading == Some(
                true,
            ))),
    {
        match &feedback.condition {
            FeedbackCondition::MetricThreshold { .. } => {
                match instance.step_results.get(&feedback.source_step_id) {
                    Some(result) => match &result.output {
                        Some(_) => match reading {
                            Some(b) => b,
                            None => false,
                        },
                        None => false,
                    },
                    None => false,
                }
            },
            FeedbackCondition::Manual => true,
            FeedbackCondition::Custom(_) => false,
        }
    }

    /// The metric queries for every feedback loop of the workflow of instance
    /// `instance_id`, in the workflow's order; the error for a missing
    /// instance or workflow.
    pub fn feedback_queries(&self, instance_id: u128) -> (r: Result<Vec<Option<MetricQuery>>, String>)
        ensures
            r is Ok <==> lookup_failure(&self.storage, instance_id) is None,
            match r {
                Ok(qs) => {
                    let inst = self.storage.instances()[instance_id];
                    let loops = self.storage.workflows()[inst.workflow_id].feedback_loops@;
                    &&& qs@.len() == loops.len()
                    &&& forall|k: int|
                        0 <= k < loops.len() ==> query_view(#[trigger] qs@[k]) == query_for(
                            inst,
                            loops[k],
                        )
                },
                Err(e) => lookup_failure(&self.storage, instance_id) == Some(e@),
            },
    {
        let instance = match self.storage.get_instance(instance_id) {
            Ok(i) => i,
            Err(e) => {
                return Err(e);
            },
        };
        let workflow = match self.storage.get_workflow(instance.workflow_id) {
            Ok(w) => w,
            Err(e) => {
                return Err(e);
            },
        };
        let mut qs: Vec<Option<MetricQuery>> = Vec::new();
        let mut k: usize = 0;
        while k < workflow.feedback_loops.len()
            invariant
                k <= workflow.feedback_loops.len(),
                qs@.len() == k,
                forall|m: int|
                    0 <= m < k ==> query_view(#[trigger] qs@[m]) == query_for(
                        *instance,
                        workflow.feedback_loops@[m],
                    ),
            decreases workflow.feedback_loops.len() - k,
        {
            qs.push(Self::metric_query(instance, &workflow.feedback_loops[k]));
            k = k + 1;
        }
        Ok(qs)
    }

    /// Feedback from step `step_id` of instance `instance_id`: looks the
    /// instance and its workflow up, evaluates the condition of each feedback
    /// loop (`readings[k]` answers the metric query of loop `k`), and
    /// reschedules the target of every loop from that step whose condition
    /// holds, stopping at the first target that is not a step of the workflow.
    pub fn process_feedback(
        &self,
        instance_id: u128,
        step_id: u128,
        readings: &Vec<Option<bool>>,
    ) -> (r: Result<(), String>)
        ensures
            result_view(r) == engine_feedback(&self.storage, instance_id, step_id, readings@),
    {
        let instance = match self.storage.get_instance(instance_id) {
            Ok(i) => i,
            Err(e) => {
                return Err(e);
            },
        };
        let workflow = match self.storage.get_workflow(instance.workflow_id) {
            Ok(w) => w,
            Err(e) => {
                return Err(e);
            },
        };
        let mut fires: Vec<bool> = Vec::new();
        let mut k: usize = 0;
        while k < workflow.feedback_loops.len()
            invariant
                k <= workflow.feedback_loops.len(),
                fires@.len() == k,
                forall|m: int|
                    0 <= m < k ==> #[trigger] fires@[m] == condition_fires(
                        *instance,
                        workflow.feedback_loops@[m],
                        reading_at(readings@, m),
                    ),
            decreases workflow.feedback_loops.len() - k,
        {
            let reading = if k < readings.len() {
                readings[k]
            } else {
                None
            };
            let fire = Self::evaluate_feedback_condition(
                instance,
                &workflow.feedback_loops[k],
                reading,
            );
            fires.push(fire);
            k = k + 1;
        }
        proof {
            assert(fires@ =~= firing_pattern(*instance, workflow.feedback_loops@, readings@));
        }
        self.scheduler.reschedule_fired(workflow, instance.id, step_id, &fires)
    }
}

} // verus!
