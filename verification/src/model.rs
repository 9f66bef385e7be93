//! The data the engine works on: workflows and their steps, instances and the
//! results recorded for their steps, and the tasks handed to workers.
use crate::clock::Timestamp;
use std::collections::HashMap;
use vstd::prelude::*;

verus! {

/// What kind of work a step performs.
#[derive(Clone, Debug)]
pub enum TaskType {
    DataPreparation,
    ModelTraining,
    ModelEvaluation,
    ModelDeployment,
    Notification,
    Custom(String),
}

impl TaskType {
    /// A fresh task type equal to this one.
    pub fn duplicate(&self) -> (r: TaskType)
        ensures
            r == *self,
    {
        match self {
            TaskType::DataPreparation => TaskType::DataPreparation,
            TaskType::ModelTraining => TaskType::ModelTraining,
            TaskType::ModelEvaluation => TaskType::ModelEvaluation,
            TaskType::ModelDeployment => TaskType::ModelDeployment,
            TaskType::Notification => TaskType::Notification,
            TaskType::Custom(name) => TaskType::Custom(name.clone()),
        }
    }
}

/// Lifecycle of a workflow instance.
#[derive(Clone, Copy, Debug, PartialEq, Eq, Structural)]
pub enum InstanceStatus {
    Pending,
    Running,
    Completed,
    Failed,
    Cancelled,
}

/// Lifecycle of one step's execution.
#[derive(Clone, Copy, Debug, PartialEq, Eq, Structural)]
pub enum StepStatus {
    Running,
    Completed,
    Failed,
}

/// How a metric is compared with a feedback threshold.
#[derive(Clone, Copy, Debug, PartialEq, Eq, Structural)]
pub enum ThresholdOperator {
    GreaterThan,
    LessThan,
    Equal,
}

/// When a feedback loop fires.
#[derive(Clone, Debug)]
pub enum FeedbackCondition {
    /// Fires when the named metric in the source step's output compares with
    /// the threshold as the operator says. The threshold is held as the IEEE
    /// 754 bit pattern of a double.
    MetricThreshold { metric: String, threshold_bits: u64, operator: ThresholdOperator },
    /// Fires whenever feedback is requested.
    Manual,
    /// A named custom condition; no evaluator exists for it, so it never fires.
    Custom(String),
}

/// A loop from a step back to another step of the same workflow.
#[derive(Clone, Debug)]
pub struct FeedbackLoop {
    pub source_step_id: u128,
    pub target_step_id: u128,
    pub condition: FeedbackCondition,
}

/// One step of a workflow.
#[derive(Clone, Debug)]
pub struct Step {
    pub id: u128,
    pub name: String,
    pub task_type: TaskType,
    pub config: HashMap<String, String>,
    pub dependencies: Vec<u128>,
}

/// A workflow definition.
#[derive(Clone, Debug)]
pub struct Workflow {
    pub id: u128,
    pub name: String,
    pub steps: Vec<Step>,
    pub feedback_loops: Vec<FeedbackLoop>,
}

/// What is known of one step's execution in an instance. The output is JSON
/// text.
#[derive(Clone, Debug)]
pub struct StepResult {
    pub step_id: u128,
    pub status: StepStatus,
    pub output: Option<String>,
    pub error: Option<String>,
    pub worker_id: Option<String>,
    pub started_at: Option<Timestamp>,
    pub completed_at: Option<Timestamp>,
}

/// One run of a workflow.
#[derive(Clone, Debug)]
pub struct WorkflowInstance {
    pub id: u128,
    pub workflow_id: u128,
    pub status: InstanceStatus,
    pub step_results: HashMap<u128, StepResult>,
    pub created_at: Timestamp,
    pub updated_at: Timestamp,
}

/// A unit of work handed to a worker: one step of one instance.
#[derive(Clone, Debug)]
pub struct WorkerTask {
    pub id: u128,
    pub step_id: u128,
    pub instance_id: u128,
    pub task_type: TaskType,
    pub config: HashMap<String, String>,
}

impl StepResult {
    /// A fresh step result equal to this one.
    pub fn duplicate(&self) -> (r: StepResult)
        ensures
            r == *self,
    {
        StepResult {
            step_id: self.step_id,
            status: self.status,
            output: match &self.output {
                Some(o) => Some(o.clone()),
                None => None,
            },
            error: match &self.error {
                Some(e) => Some(e.clone()),
                None => None,
            },
            worker_id: match &self.worker_id {
                Some(w) => Some(w.clone()),
                None => None,
            },
            started_at: self.started_at,
            completed_at: self.completed_at,
        }
    }
}

/// A fresh list of task types equal to `types` element by element.
pub fn duplicate_task_types(types: &Vec<TaskType>) -> (r: Vec<TaskType>)
    ensures
        r@ == types@,
{
    let mut r: Vec<TaskType> = Vec::new();
    let mut i: usize = 0;
    while i < types.len()
        invariant
            i <= types.len(),
            r@ == types@.take(i as int),
        decreases types.len() - i,
    {
        r.push(types[i].duplicate());
        proof {
            assert(types@.take(i as int + 1) =~= types@.take(i as int).push(types@[i as int]));
        }
        i = i + 1;
    }
    proof {
        assert(types@.take(i as int) =~= types@);
    }
    r
}

/// `i` is the first position in `steps` of a step with identifier `id`.
pub open spec fn is_first_step_with(steps: Seq<Step>, id: u128, i: int) -> bool {
    &&& 0 <= i < steps.len()
    &&& steps[i].id == id
    &&& forall|j: int| 0 <= j < i ==> steps[j].id != id
}

/// Some step in `steps` has identifier `id`.
pub open spec fn has_step(steps: Seq<Step>, id: u128) -> bool {
    exists|i: int| 0 <= i < steps.len() && steps[i].id == id
}

/// The position of the first step with identifier `id`, if any.
pub fn find_step(steps: &Vec<Step>, id: u128) -> (r: Option<usize>)
    ensures
        match r {
            Some(i) => is_first_step_with(steps@, id, i as int),
            None => !has_step(steps@, id),
        },
{
    let mut i: usize = 0;
    while i < steps.len()
        invariant
            i <= steps.len(),
            forall|j: int| 0 <= j < i ==> steps@[j].id != id,
        decreases steps.len() - i,
    {
        if steps[i].id == id {
            return Some(i);
        }
        i = i + 1;
    }
    None
}

/// Identifiers, in order, of the steps that depend on nothing.
pub open spec fn initial_step_ids(steps: Seq<Step>) -> Seq<u128>
    decreases steps.len(),
{
    if steps.len() == 0 {
        Seq::empty()
    } else {
        let rest = initial_step_ids(steps.drop_last());
        if steps.last().dependencies@.len() == 0 {
            rest.push(steps.last().id)
        } else {
            rest
        }
    }
}

/// Some step in `steps` has identifier `id` and depends on nothing.
pub open spec fn is_initial_step(steps: Seq<Step>, id: u128) -> bool {
    exists|j: int| 0 <= j < steps.len() && steps[j].id == id && steps[j].dependencies@.len() == 0
}

/// Every identifier that `initial_step_ids` lists is that of a step with no
/// dependencies.
pub proof fn lemma_initial_ids_are_steps(steps: Seq<Step>)
    ensures
        forall|k: int|
            0 <= k < initial_step_ids(steps).len() ==> is_initial_step(
                steps,
                #[trigger] initial_step_ids(steps)[k],
            ),
    decreases steps.len(),
{
    if steps.len() > 0 {
        let rest = steps.drop_last();
        lemma_initial_ids_are_steps(rest);
        let ids = initial_step_ids(steps);
        let rest_ids = initial_step_ids(rest);
        let last = steps.len() - 1;
        assert(steps[last] == steps.last());
        assert forall|k: int| 0 <= k < ids.len() implies is_initial_step(steps, #[trigger] ids[k]) by {
            if k < rest_ids.len() {
                assert(is_initial_step(rest, rest_ids[k]));
                let j = choose|j: int|
                    0 <= j < rest.len() && rest[j].id == rest_ids[k]
                        && rest[j].dependencies@.len() == 0;
                assert(steps[j] == rest[j]);
                assert(ids[k] == rest_ids[k]);
            } else {
                assert(steps[last].id == ids[k]);
            }
        }
    }
}

/// The identifiers of a workflow's initial steps: those with no
/// dependencies, in the order the workflow lists them.
pub fn initial_steps(workflow: &Workflow) -> (r: Vec<u128>)
    ensures
        r@ == initial_step_ids(workflow.steps@),
        forall|j: int|
            0 <= j < workflow.steps@.len() && (#[trigger] workflow.steps@[j]).dependencies@.len()
                == 0 ==> r@.contains(workflow.steps@[j].id),
        forall|k: int| 0 <= k < r@.len() ==> is_initial_step(workflow.steps@, #[trigger] r@[k]),
        r@ == workflow.steps@.filter_map(
            |s: Step|
                if s.dependencies@.len() == 0 {
                    Some(s.id)
                } else {
                    None
                },
        ),
{
    proof {
        crate::laws::law_initial_steps_are_all_steps_without_dependencies(workflow.steps@);
        crate::laws::law_initial_steps_keep_workflow_order(workflow.steps@);
    }
    let mut r: Vec<u128> = Vec::new();
    let mut i: usize = 0;
    while i < workflow.steps.len()
        invariant
            i <= workflow.steps.len(),
            r@ == initial_step_ids(workflow.steps@.take(i as int)),
        decreases workflow.steps.len() - i,
    {
        assert(workflow.steps@.take(i as int + 1).drop_last() == workflow.steps@.take(i as int));
        if workflow.steps[i].dependencies.len() == 0 {
            r.push(workflow.steps[i].id);
        }
        i = i + 1;
    }
    assert(workflow.steps@.take(i as int) == workflow.steps@);
    r
}

} // verus!
