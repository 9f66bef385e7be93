//! A worker's side of running a task: registering with the scheduler,
//! recording that a step runs, and recording how it ended.
use crate::clock::{current_time, Timestamp};
use crate::model::{duplicate_task_types, StepResult, StepStatus, TaskType, WorkerTask};
use crate::scheduler::{result_view, scheduler_feedback, Scheduler};
use crate::storage::{records_step_result, with_id, InMemoryStorage};
use vstd::prelude::*;

verus! {

/// The result of step `step_id` while worker `worker_id` runs it, started at
/// `started_at`.
pub open spec fn is_running_result(r: StepResult, step_id: u128, worker_id: Seq<char>, started_at: Timestamp) -> bool {
    &&& r.step_id == step_id
    &&& r.status == StepStatus::Running
    &&& r.output is None
    &&& r.error is None
    &&& r.worker_id matches Some(w) && w@ == worker_id
    &&& r.started_at == Some(started_at)
    &&& r.completed_at is None
}

/// `after` is `before` finished with `outcome` at `completed_at`: completed
/// with the output, or failed with the error; all else as it was.
pub open spec fn is_finished_result(
    before: StepResult,
    after: StepResult,
    outcome: Result<String, String>,
    completed_at: Timestamp,
) -> bool {
    &&& after.step_id == before.step_id
    &&& after.worker_id == before.worker_id
    &&& after.started_at == before.started_at
    &&& after.completed_at == Some(completed_at)
    &&& match outcome {
        Ok(o) => after.status == StepStatus::Completed && after.output == Some(o) && after.error
            == before.error,
        Err(e) => after.status == StepStatus::Failed && after.error == Some(e) && after.output
            == before.output,
    }
}

/// A worker: its identifier and the kinds of task it can run.
pub struct Worker {
    pub id: String,
    pub capabilities: Vec<TaskType>,
}

impl Worker {
    /// A worker named `id` that runs tasks of the kinds in `capabilities`.
    pub fn new(id: String, capabilities: Vec<TaskType>) -> (w: Self)
        ensures
            w.id == id,
            w.capabilities == capabilities,
    {
        Worker { id, capabilities }
    }

    /// Registers this worker, with its capabilities, at `scheduler`.
    pub fn register_with(&self, scheduler: &mut Scheduler) -> (r: Result<(), String>)
        ensures
            r is Ok,
            final(scheduler).workers@.contains_key(self.id@),
            final(scheduler).workers@.remove(self.id@) == old(scheduler).workers@.remove(self.id@),
            final(scheduler).workers@[self.id@].id == self.id,
            final(scheduler).workers@[self.id@].capabilities@ == self.capabilities@,
            final(scheduler).consensus == old(scheduler).consensus,
    {
        let caps = duplicate_task_types(&self.capabilities);
        let r = scheduler.register_worker(self.id.clone(), caps);
        proof {
            assert(scheduler.workers@.remove(self.id@) =~= old(scheduler).workers@.remove(self.id@));
        }
        r
    }

    /// The result of `task`'s step while this worker runs it, started at
    /// `started_at`.
    pub fn running_result(&self, task: &WorkerTask, started_at: Timestamp) -> (r: StepResult)
        ensures
            is_running_result(r, task.step_id, self.id@, started_at),
            r.step_id == task.step_id,
            r.status == StepStatus::Running,
            r.started_at == Some(started_at),
    {
        StepResult {
            step_id: task.step_id,
            status: StepStatus::Running,
            output: None,
            error: None,
            worker_id: Some(self.id.clone()),
            started_at: Some(started_at),
            completed_at: None,
        }
    }

    /// `result` finished with `outcome` at `completed_at`: completed with the
    /// output, or failed with the error.
    pub fn finished_result(result: StepResult, outcome: Result<String, String>, completed_at: Timestamp) -> (r:
        StepResult)
        ensures
            is_finished_result(result, r, outcome, completed_at),
    {
        let mut r = result;
        match outcome {
            Ok(output) => {
                r.status = StepStatus::Completed;
                r.output = Some(output);
            },
            Err(e) => {
                r.status = StepStatus::Failed;
                r.error = Some(e);
            },
        }
        r.completed_at = Some(completed_at);
        r
    }

    /// Marks `task`'s step as running on this worker, started now, and records
    /// that in `storage`; answers the recorded result, or the error for a
    /// missing instance (the store then stays as it was).
    pub fn begin_task(&self, storage: &mut InMemoryStorage, task: &WorkerTask) -> (r: Result<
        StepResult,
        String,
    >)
        ensures
            r is Ok <==> old(storage).instances().contains_key(task.instance_id),
            final(storage).workflows() == old(storage).workflows(),
            match r {
                Ok(result) => {
                    &&& result.step_id == task.step_id
                    &&& result.status == StepStatus::Running
                    &&& final(storage).instances()[task.instance_id].step_results@[task.step_id]
                        == result
                    &&& final(storage).instances().dom() == old(storage).instances().dom()
                    &&& final(storage).instances().remove(task.instance_id) == old(
                        storage,
                    ).instances().remove(task.instance_id)
                    &&& exists|started: Timestamp|
                        #[trigger] is_running_result(result, task.step_id, self.id@, started)
                    &&& exists|now: Timestamp|
                        records_step_result(
                            old(storage).instances()[task.instance_id],
                            final(storage).instances()[task.instance_id],
                            task.step_id,
                            result,
                            now,
                        )
                },
                Err(e) => {
                    &&& final(storage).instances() == old(storage).instances()
                    &&& e@ == with_id("Instance not found: "@, task.instance_id)
                },
            },
    {
        let started = current_time();
        let result = self.running_result(task, started);
        match storage.update_step_result(task.instance_id, task.step_id, result.duplicate()) {
            Ok(_) => Ok(result),
            Err(e) => Err(e),
        }
    }

    /// Finishes `task`'s step with `outcome`, completed now: records the
    /// finished `result` in `storage`, then has `scheduler` process the
    /// feedback from that step. The error for a missing instance leaves the
    /// store as it was.
    pub fn finish_task(
        &self,
        scheduler: &Scheduler,
        storage: &mut InMemoryStorage,
        task: &WorkerTask,
        result: StepResult,
        outcome: Result<String, String>,
    ) -> (r: Result<(), String>)
        ensures
            final(storage).workflows() == old(storage).workflows(),
            !old(storage).instances().contains_key(task.instance_id) ==> {
                &&& final(storage).instances() == old(storage).instances()
                &&& r is Err && r->Err_0@ == with_id("Instance not found: "@, task.instance_id)
            },
            old(storage).instances().contains_key(task.instance_id) ==> {
                &&& final(storage).instances().dom() == old(storage).instances().dom()
                &&& final(storage).instances().remove(task.instance_id) == old(
                    storage,
                ).instances().remove(task.instance_id)
                &&& exists|finished: StepResult, done: Timestamp, now: Timestamp|
                    #![trigger is_finished_result(result, finished, outcome, done), records_step_result(old(storage).instances()[task.instance_id], final(storage).instances()[task.instance_id], task.step_id, finished, now)]
                    is_finished_result(result, finished, outcome, done)
                        && records_step_result(
                        old(storage).instances()[task.instance_id],
                        final(storage).instances()[task.instance_id],
                        task.step_id,
                        finished,
                        now,
                    )
                &&& result_view(r) == scheduler_feedback(
                    &*final(storage),
                    task.instance_id,
                    task.step_id,
                )
            },
    {
        let completed = current_time();
        let finished = Self::finished_result(result, outcome, completed);
        let ghost recorded = finished;
        match storage.update_step_result(task.instance_id, task.step_id, finished) {
            Ok(_) => {},
            Err(e) => {
                return Err(e);
            },
        }
        proof {
            let now = choose|now: Timestamp|
                records_step_result(
                    old(storage).instances()[task.instance_id],
                    storage.instances()[task.instance_id],
                    task.step_id,
                    recorded,
                    now,
                );
            assert(is_finished_result(result, recorded, outcome, completed));
            assert(records_step_result(
                old(storage).instances()[task.instance_id],
                storage.instances()[task.instance_id],
                task.step_id,
                recorded,
                now,
            ));
        }
        scheduler.process_feedback(storage, task.instance_id, task.step_id)
    }
}

} // verus!
