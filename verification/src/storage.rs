//! An in-memory store of workflows and instances, keyed by identifier.
use crate::clock::{current_time, Timestamp};
use crate::ids::{id_text, uuid_text};
use crate::model::{StepResult, Workflow, WorkflowInstance};
use std::collections::HashMap;
use vstd::prelude::*;
use vstd::string::StringExecFns;

verus! {

broadcast use vstd::std_specs::hash::group_hash_axioms;

/// The text `prefix` followed by the canonical text of `id`.
pub open spec fn with_id(prefix: Seq<char>, id: u128) -> Seq<char> {
    prefix + uuid_text(id)
}

/// Builds the message `prefix` followed by the text of `id`.
pub fn message_with_id(prefix: &str, id: u128) -> (m: String)
    ensures
        m@ == with_id(prefix@, id),
{
    let mut m = String::from_str(prefix);
    let text = id_text(id);
    m.append(text.as_str());
    m
}

/// `new` is `old` with `result` recorded for `step_id` and the update time
/// set to `now`; everything else about the instance is unchanged.
pub open spec fn records_step_result(
    old: WorkflowInstance,
    new: WorkflowInstance,
    step_id: u128,
    result: StepResult,
    now: Timestamp,
) -> bool {
    &&& new.id == old.id
    &&& new.workflow_id == old.workflow_id
    &&& new.status == old.status
    &&& new.created_at == old.created_at
    &&& new.updated_at == now
    &&& new.step_results@ == old.step_results@.insert(step_id, result)
}

/// Workflows and instances held in memory.
pub struct InMemoryStorage {
    workflows: HashMap<u128, Workflow>,
    instances: HashMap<u128, WorkflowInstance>,
}

impl InMemoryStorage {
    /// Every stored workflow and instance sits under its own identifier.
    #[verifier::type_invariant]
    spec fn keyed_by_id(self) -> bool {
        &&& forall|k: u128| #[trigger]
            self.workflows@.contains_key(k) ==> self.workflows@[k].id == k
        &&& forall|k: u128| #[trigger]
            self.instances@.contains_key(k) ==> self.instances@[k].id == k
    }

    /// The stored workflows, by identifier.
    pub closed spec fn workflows(&self) -> Map<u128, Workflow> {
        self.workflows@
    }

    /// The stored instances, by identifier.
    pub closed spec fn instances(&self) -> Map<u128, WorkflowInstance> {
        self.instances@
    }

    /// An empty store.
    pub fn new() -> (s: Self)
        ensures
            s.workflows() == Map::<u128, Workflow>::empty(),
            s.instances() == Map::<u128, WorkflowInstance>::empty(),
    {
        InMemoryStorage { workflows: HashMap::new(), instances: HashMap::new() }
    }

    /// Stores `workflow` under its identifier, replacing any workflow stored
    /// there before. Never fails.
    pub fn save_workflow(&mut self, workflow: Workflow) -> (r: Result<(), String>)
        ensures
            r is Ok,
            final(self).workflows() == old(self).workflows().insert(workflow.id, workflow),
            final(self).instances() == old(self).instances(),
    {
        proof {
            use_type_invariant(&*self);
        }
        let mut workflows = HashMap::new();
        std::mem::swap(&mut workflows, &mut self.workflows);
        let id = workflow.id;
        workflows.insert(id, workflow);
        self.workflows = workflows;
        Ok(())
    }

    /// The workflow stored under `id`, or the error `Workflow not found: <id>`.
    pub fn get_workflow(&self, id: u128) -> (r: Result<&Workflow, String>)
        ensures
            match r {
                Ok(w) => self.workflows().contains_key(id) && *w == self.workflows()[id]
                    && w.id == id,
                Err(e) => !self.workflows().contains_key(id) && e@ == with_id(
                    "Workflow not found: "@,
                    id,
                ),
            },
    {
        proof {
            use_type_invariant(self);
        }
        match self.workflows.get(&id) {
            Some(w) => Ok(w),
            None => Err(message_with_id("Workflow not found: ", id)),
        }
    }

    /// Stores `instance` under its identifier, replacing any instance stored
    /// there before. Never fails.
    pub fn save_instance(&mut self, instance: WorkflowInstance) -> (r: Result<(), String>)
        ensures
            r is Ok,
            final(self).instances() == old(self).instances().insert(instance.id, instance),
            final(self).workflows() == old(self).workflows(),
    {
        proof {
            use_type_invariant(&*self);
        }
        let mut instances = HashMap::new();
        std::mem::swap(&mut instances, &mut self.instances);
        let id = instance.id;
        instances.insert(id, instance);
        self.instances = instances;
        Ok(())
    }

    /// The instance stored under `id`, or the error `Instance not found: <id>`.
    pub fn get_instance(&self, id: u128) -> (r: Result<&WorkflowInstance, String>)
        ensures
            match r {
                Ok(i) => self.instances().contains_key(id) && *i == self.instances()[id]
                    && i.id == id,
                Err(e) => !self.instances().contains_key(id) && e@ == with_id(
                    "Instance not found: "@,
                    id,
                ),
            },
    {
        proof {
            use_type_invariant(self);
        }
        match self.instances.get(&id) {
            Some(i) => Ok(i),
            None => Err(message_with_id("Instance not found: ", id)),
        }
    }

    /// Records `result` for step `step_id` of instance `instance_id` and sets
    /// the instance's update time to `now`; the error
    /// `Instance not found: <instance_id>` leaves the store as it was.
    pub fn update_step_result_at(
        &mut self,
        instance_id: u128,
        step_id: u128,
        result: StepResult,
        now: Timestamp,
    ) -> (r: Result<(), String>)
        ensures
            r is Ok <==> old(self).instances().contains_key(instance_id),
            final(self).workflows() == old(self).workflows(),
            match r {
                Ok(_) => {
                    &&& final(self).instances().dom() == old(self).instances().dom()
                    &&& final(self).instances().remove(instance_id) == old(
                        self,
                    ).instances().remove(instance_id)
                    &&& records_step_result(
                        old(self).instances()[instance_id],
                        final(self).instances()[instance_id],
                        step_id,
                        result,
                        now,
                    )
                },
                Err(e) => {
                    &&& final(self).instances() == old(self).instances()
                    &&& e@ == with_id("Instance not found: "@, instance_id)
                },
            },
    {
        proof {
            use_type_invariant(&*self);
        }
        let mut instances = HashMap::new();
        std::mem::swap(&mut instances, &mut self.instances);
        let r = match instances.remove(&instance_id) {
            Some(mut instance) => {
                let mut results = HashMap::new();
                std::mem::swap(&mut results, &mut instance.step_results);
                results.insert(step_id, result);
                instance.step_results = results;
                instance.updated_at = now;
                instances.insert(instance_id, instance);
                Ok(())
            },
            None => Err(message_with_id("Instance not found: ", instance_id)),
        };
        proof {
            if r is Ok {
                assert(instances@.remove(instance_id) =~= old(self).instances@.remove(
                    instance_id,
                ));
                assert(instances@.dom() =~= old(self).instances@.dom());
            } else {
                assert(instances@ =~= old(self).instances@);
            }
        }
        self.instances = instances;
        r
    }

    /// Records `result` for step `step_id` of instance `instance_id`,
    /// stamping the instance with the current time; the error
    /// `Instance not found: <instance_id>` leaves the store as it was.
    pub fn update_step_result(&mut self, instance_id: u128, step_id: u128, result: StepResult) -> (r:
        Result<(), String>)
        ensures
            r is Ok <==> old(self).instances().contains_key(instance_id),
            final(self).workflows() == old(self).workflows(),
            match r {
                Ok(_) => {
                    &&& final(self).instances().dom() == old(self).instances().dom()
                    &&& final(self).instances().remove(instance_id) == old(
                        self,
                    ).instances().remove(instance_id)
                    &&& exists|now: Timestamp|
                        records_step_result(
                            old(self).instances()[instance_id],
                            final(self).instances()[instance_id],
                            step_id,
                            result,
                            now,
                        )
                },
                Err(e) => {
                    &&& final(self).instances() == old(self).instances()
                    &&& e@ == with_id("Instance not found: "@, instance_id)
                },
            },
    {
        let now = current_time();
        self.update_step_result_at(instance_id, step_id, result, now)
    }
}

} // verus!
