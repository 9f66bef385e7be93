use std::collections::HashMap;
use upplysning::clock::{current_time, Timestamp};
use upplysning::consensus::SimpleConsensus;
use upplysning::engine::WorkflowEngine;
use upplysning::ids::{id_text, new_id};
use upplysning::model::{
    duplicate_task_types, find_step, initial_steps, FeedbackCondition, FeedbackLoop, InstanceStatus,
    Step, StepResult, StepStatus, TaskType, ThresholdOperator, Workflow, WorkflowInstance,
    WorkerTask,
};
use upplysning::registry::{WorkerInfo, WorkerRegistry};
use upplysning::scheduler::{make_task, Scheduler};
use upplysning::storage::{message_with_id, InMemoryStorage};
use upplysning::worker::Worker;

fn ts(secs: i64, nanos: u32) -> Timestamp {
    Timestamp { secs, nanos }
}

fn step(id: u128, name: &str, task_type: TaskType, deps: Vec<u128>) -> Step {
    let mut config = HashMap::new();
    config.insert("name".to_string(), name.to_string());
    Step { id, name: name.to_string(), task_type, config, dependencies: deps }
}

fn manual(source: u128, target: u128) -> FeedbackLoop {
    FeedbackLoop { source_step_id: source, target_step_id: target, condition: FeedbackCondition::Manual }
}

fn sample_workflow(loops: Vec<FeedbackLoop>) -> Workflow {
    Workflow {
        id: 100,
        name: "training".to_string(),
        steps: vec![
            step(1, "prepare", TaskType::DataPreparation, vec![]),
            step(2, "train", TaskType::ModelTraining, vec![1]),
            step(3, "notify", TaskType::Notification, vec![]),
            step(4, "custom", TaskType::Custom("score".to_string()), vec![2, 3]),
        ],
        feedback_loops: loops,
    }
}

fn instance(id: u128, workflow_id: u128) -> WorkflowInstance {
    WorkflowInstance {
        id,
        workflow_id,
        status: InstanceStatus::Pending,
        step_results: HashMap::new(),
        created_at: ts(10, 0),
        updated_at: ts(10, 0),
    }
}

fn result_with_output(step_id: u128, output: Option<&str>) -> StepResult {
    StepResult {
        step_id,
        status: StepStatus::Completed,
        output: output.map(|o| o.to_string()),
        error: None,
        worker_id: Some("w1".to_string()),
        started_at: Some(ts(1, 0)),
        completed_at: Some(ts(2, 0)),
    }
}

fn engine() -> WorkflowEngine {
    WorkflowEngine::new(Scheduler::new("amqp://localhost").unwrap(), InMemoryStorage::new())
}

#[test]
fn new_ids_are_random_version_four() {
    for _ in 0..16 {
        let id = new_id();
        assert_eq!(id & 0xF000_C000_0000_0000_0000u128, 0x4000_8000_0000_0000_0000u128);
    }
    assert_ne!(new_id(), new_id());
}

#[test]
fn id_text_is_hyphenated_lower_hex() {
    assert_eq!(id_text(0xa1a2a3a4b1b2c1c2d1d2d3d4d5d6d7d8), "a1a2a3a4-b1b2-c1c2-d1d2-d3d4d5d6d7d8");
    assert_eq!(id_text(0x63), "00000000-0000-0000-0000-000000000063");
    assert_eq!(message_with_id("Workflow not found: ", 1), "Workflow not found: 00000000-0000-0000-0000-000000000001");
}

#[test]
fn elapsed_compares_whole_instants() {
    let now = ts(100, 500);
    assert!(!now.elapsed_exceeds(&ts(70, 500), 30));
    assert!(now.elapsed_exceeds(&ts(70, 499), 30));
    assert!(!now.elapsed_exceeds(&ts(200, 0), 30));
    assert!(ts(31, 0).elapsed_exceeds(&ts(0, 999_999_999), 30));
    let t = current_time();
    assert!(t.nanos < 1_000_000_000);
    assert!(t.secs > 1_600_000_000);
}

#[test]
fn consensus_node_one_leads() {
    let mut c = SimpleConsensus::new(1, vec!["a".to_string()]);
    assert!(c.is_leader());
    assert_eq!(c.propose_leader(2), Ok(false));
    assert!(!c.is_leader());
    assert_eq!(c.propose_leader(1), Ok(true));
    assert!(c.is_leader());
    assert_eq!(c.heartbeat(), Ok(()));
    assert!(c.is_leader());
    let other = SimpleConsensus::new(2, vec![]);
    assert!(!other.is_leader());
}

#[test]
fn scheduler_starts_as_leader() {
    let mut s = Scheduler::new("amqp://localhost").unwrap();
    assert!(s.consensus.is_leader());
    assert_eq!(s.workers.len(), 0);
    assert_eq!(s.start_leader_election(), Ok(()));
    assert!(s.consensus.is_leader());
}

#[test]
fn storage_reads_back_what_was_saved() {
    let mut st = InMemoryStorage::new();
    assert_eq!(st.get_workflow(100).unwrap_err(), "Workflow not found: 00000000-0000-0000-0000-000000000064");
    assert_eq!(st.save_workflow(sample_workflow(vec![])), Ok(()));
    let wf = st.get_workflow(100).unwrap();
    assert_eq!(wf.name, "training");
    assert_eq!(wf.steps.len(), 4);
    assert_eq!(st.save_instance(instance(7, 100)), Ok(()));
    assert_eq!(st.get_instance(7).unwrap().workflow_id, 100);
    assert_eq!(st.get_instance(8).unwrap_err(), "Instance not found: 00000000-0000-0000-0000-000000000008");
    let mut replaced = sample_workflow(vec![]);
    replaced.name = "retrained".to_string();
    st.save_workflow(replaced).unwrap();
    assert_eq!(st.get_workflow(100).unwrap().name, "retrained");
}

#[test]
fn step_results_are_recorded() {
    let mut st = InMemoryStorage::new();
    st.save_instance(instance(7, 100)).unwrap();
    assert_eq!(
        st.update_step_result(9, 1, result_with_output(1, None)).unwrap_err(),
        "Instance not found: 00000000-0000-0000-0000-000000000009"
    );
    st.update_step_result_at(7, 1, result_with_output(1, Some("{}")), ts(50, 5)).unwrap();
    let inst = st.get_instance(7).unwrap();
    assert_eq!(inst.updated_at, ts(50, 5));
    assert_eq!(inst.created_at, ts(10, 0));
    assert_eq!(inst.step_results.len(), 1);
    assert_eq!(inst.step_results[&1].output.as_deref(), Some("{}"));
    st.update_step_result(7, 2, result_with_output(2, None)).unwrap();
    assert_eq!(st.get_instance(7).unwrap().step_results.len(), 2);
}

#[test]
fn workers_register_beat_and_expire() {
    let mut s = Scheduler::new("amqp://x").unwrap();
    s.register_worker_at("w1".to_string(), vec![TaskType::ModelTraining], ts(0, 0)).unwrap();
    s.register_worker_at("w2".to_string(), vec![], ts(0, 0)).unwrap();
    assert_eq!(s.workers.len(), 2);
    s.register_worker_at("w1".to_string(), vec![TaskType::Notification], ts(5, 0)).unwrap();
    assert_eq!(s.workers.len(), 2);
    let w1 = s.workers.get(&"w1".to_string()).unwrap();
    assert_eq!(w1.last_heartbeat, ts(5, 0));
    assert!(matches!(w1.capabilities[0], TaskType::Notification));
    assert_eq!(s.worker_heartbeat_at("w2", ts(20, 0)), Ok(()));
    assert_eq!(s.worker_heartbeat_at("ghost", ts(20, 0)), Err("Worker not found: ghost".to_string()));
    // w1 last beat at 5 s, w2 at 20 s: at 35.5 s only w1 is more than 30 s old.
    s.monitor_workers_at(ts(35, 500_000_000)).unwrap();
    assert!(s.workers.get(&"w1".to_string()).is_none());
    assert!(s.workers.get(&"w2".to_string()).is_some());
    // Exactly 30 s is not more than 30 s.
    s.monitor_workers_at(ts(50, 0)).unwrap();
    assert_eq!(s.workers.len(), 1);
    s.monitor_workers_at(ts(50, 1)).unwrap();
    assert_eq!(s.workers.len(), 0);
}

#[test]
fn live_heartbeats_use_the_clock() {
    let mut s = Scheduler::new("amqp://x").unwrap();
    s.register_worker("w".to_string(), vec![]).unwrap();
    assert_eq!(s.worker_heartbeat("w"), Ok(()));
    s.monitor_workers().unwrap();
    assert_eq!(s.workers.len(), 1);
    let mut reg = WorkerRegistry::new();
    reg.register(WorkerInfo { id: "a".to_string(), last_heartbeat: ts(0, 0), capabilities: vec![] });
    assert!(reg.touch(&"a".to_string(), ts(3, 0)));
    assert!(!reg.touch(&"b".to_string(), ts(3, 0)));
    assert_eq!(reg.get(&"a".to_string()).unwrap().last_heartbeat, ts(3, 0));
}

#[test]
fn initial_steps_are_those_without_dependencies() {
    let wf = sample_workflow(vec![]);
    assert_eq!(initial_steps(&wf), vec![1, 3]);
    assert_eq!(find_step(&wf.steps, 3), Some(2));
    assert_eq!(find_step(&wf.steps, 9), None);
}

#[test]
fn tasks_take_over_their_step() {
    let wf = sample_workflow(vec![]);
    let t: WorkerTask = make_task(&wf, 7, 4, 55).unwrap();
    assert_eq!((t.id, t.step_id, t.instance_id), (55, 4, 7));
    assert!(matches!(&t.task_type, TaskType::Custom(n) if n == "score"));
    assert_eq!(t.config.get("name").map(|s| s.as_str()), Some("custom"));
    assert_eq!(
        make_task(&wf, 7, 0x63, 1).unwrap_err(),
        "Step not found: 00000000-0000-0000-0000-000000000063"
    );
    let s = Scheduler::new("amqp://x").unwrap();
    assert_eq!(s.schedule_step(&wf, 7, 2), Ok(()));
    assert!(s.reschedule_step(&wf, 7, 9).is_err());
}

#[test]
fn only_the_leader_schedules() {
    let wf = sample_workflow(vec![]);
    let inst = instance(7, 100);
    let mut s = Scheduler::new("amqp://x").unwrap();
    assert_eq!(s.schedule_workflow(&wf, &inst), Ok(()));
    s.consensus.propose_leader(2).unwrap();
    assert_eq!(
        s.schedule_workflow(&wf, &inst),
        Err("Not the leader node - cannot schedule workflow".to_string())
    );
}

#[test]
fn starting_a_workflow_stores_a_pending_instance() {
    let mut e = engine();
    let id = e.start_workflow(sample_workflow(vec![])).unwrap();
    let inst = e.storage.get_instance(id).unwrap();
    assert_eq!(inst.status, InstanceStatus::Pending);
    assert_eq!(inst.workflow_id, 100);
    assert!(inst.step_results.is_empty());
    assert!(e.storage.get_workflow(100).is_ok());
    let r = e.start_workflow_with(sample_workflow(vec![]), 5, ts(1, 0), ts(2, 0));
    assert_eq!(r, Ok(5));
    assert_eq!(e.storage.get_instance(5).unwrap().updated_at, ts(2, 0));
}

#[test]
fn a_follower_stores_but_refuses_to_start() {
    let mut e = engine();
    e.scheduler.consensus.propose_leader(3).unwrap();
    let r = e.start_workflow_with(sample_workflow(vec![]), 5, ts(1, 0), ts(1, 0));
    assert_eq!(r, Err("Not the leader node - cannot schedule workflow".to_string()));
    assert!(e.storage.get_instance(5).is_ok());
    assert!(e.storage.get_workflow(100).is_ok());
}

#[test]
fn scheduler_feedback_reschedules_every_loop() {
    let mut st = InMemoryStorage::new();
    let s = Scheduler::new("amqp://x").unwrap();
    assert_eq!(
        s.process_feedback(&st, 7, 2).unwrap_err(),
        "Instance not found: 00000000-0000-0000-0000-000000000007"
    );
    st.save_instance(instance(7, 100)).unwrap();
    assert_eq!(
        s.process_feedback(&st, 7, 2).unwrap_err(),
        "Workflow not found: 00000000-0000-0000-0000-000000000064"
    );
    let custom = FeedbackLoop {
        source_step_id: 2,
        target_step_id: 0x99,
        condition: FeedbackCondition::Custom("never".to_string()),
    };
    st.save_workflow(sample_workflow(vec![manual(2, 1), custom])).unwrap();
    // The scheduler's own pass fires every loop, the custom one too.
    assert_eq!(
        s.process_feedback(&st, 7, 2).unwrap_err(),
        "Step not found: 00000000-0000-0000-0000-000000000099"
    );
    assert_eq!(s.process_feedback(&st, 7, 3), Ok(()));
}

#[test]
fn engine_feedback_evaluates_conditions() {
    let mut e = engine();
    let metric = FeedbackLoop {
        source_step_id: 2,
        target_step_id: 0x77,
        condition: FeedbackCondition::MetricThreshold {
            metric: "accuracy".to_string(),
            threshold_bits: 0.9f64.to_bits(),
            operator: ThresholdOperator::GreaterThan,
        },
    };
    let custom = FeedbackLoop {
        source_step_id: 2,
        target_step_id: 0x99,
        condition: FeedbackCondition::Custom("never".to_string()),
    };
    e.storage.save_workflow(sample_workflow(vec![custom, metric.clone(), manual(2, 1)])).unwrap();
    e.storage.save_instance(instance(7, 100)).unwrap();
    // No output recorded for step 2: the metric loop cannot fire.
    assert_eq!(e.process_feedback(7, 2, &vec![None, Some(true), None]), Ok(()));
    let queries = e.feedback_queries(7).unwrap();
    assert_eq!(queries.len(), 3);
    assert!(queries.iter().all(|q| q.is_none()));
    e.storage.update_step_result(7, 2, result_with_output(2, Some("{\"accuracy\":0.95}"))).unwrap();
    let queries = e.feedback_queries(7).unwrap();
    let q = queries[1].as_ref().unwrap();
    assert_eq!(q.output, "{\"accuracy\":0.95}");
    assert_eq!(q.metric, "accuracy");
    assert_eq!(q.operator, ThresholdOperator::GreaterThan);
    assert!(queries[0].is_none() && queries[2].is_none());
    // A yes fires the metric loop, whose target is missing.
    assert_eq!(
        e.process_feedback(7, 2, &vec![None, Some(true), None]).unwrap_err(),
        "Step not found: 00000000-0000-0000-0000-000000000077"
    );
    assert_eq!(e.process_feedback(7, 2, &vec![None, Some(false), None]), Ok(()));
    assert_eq!(e.process_feedback(7, 2, &vec![]), Ok(()));
    let inst = e.storage.get_instance(7).unwrap();
    assert!(WorkflowEngine::evaluate_feedback_condition(inst, &manual(5, 6), None));
    assert!(!WorkflowEngine::evaluate_feedback_condition(inst, &metric, None));
    assert!(WorkflowEngine::evaluate_feedback_condition(inst, &metric, Some(true)));
    assert!(WorkflowEngine::metric_query(inst, &manual(2, 1)).is_none());
}

#[test]
fn workers_record_running_and_finished_steps() {
    let mut e = engine();
    e.storage.save_workflow(sample_workflow(vec![manual(2, 1)])).unwrap();
    e.storage.save_instance(instance(7, 100)).unwrap();
    let worker = Worker::new("w1".to_string(), vec![TaskType::ModelTraining, TaskType::Custom("x".to_string())]);
    worker.register_with(&mut e.scheduler).unwrap();
    let caps = &e.scheduler.workers.get(&"w1".to_string()).unwrap().capabilities;
    assert_eq!(caps.len(), 2);
    let task = make_task(e.storage.get_workflow(100).unwrap(), 7, 2, 42).unwrap();
    let missing = WorkerTask { instance_id: 8, ..task.clone() };
    assert!(worker.begin_task(&mut e.storage, &missing).is_err());
    let running = worker.begin_task(&mut e.storage, &task).unwrap();
    assert_eq!(running.status, StepStatus::Running);
    assert_eq!(running.worker_id.as_deref(), Some("w1"));
    assert_eq!(e.storage.get_instance(7).unwrap().step_results[&2].status, StepStatus::Running);
    let r = worker.finish_task(&e.scheduler, &mut e.storage, &task, running, Ok("{\"status\":\"completed\"}".to_string()));
    assert_eq!(r, Ok(()));
    let recorded = &e.storage.get_instance(7).unwrap().step_results[&2];
    assert_eq!(recorded.status, StepStatus::Completed);
    assert_eq!(recorded.output.as_deref(), Some("{\"status\":\"completed\"}"));
    assert!(recorded.error.is_none());
    assert!(recorded.completed_at.is_some());
}

#[test]
fn failed_steps_keep_their_error() {
    let worker = Worker::new("w".to_string(), vec![]);
    let task = WorkerTask { id: 1, step_id: 2, instance_id: 3, task_type: TaskType::Notification, config: HashMap::new() };
    let running = worker.running_result(&task, ts(4, 0));
    assert_eq!(running.started_at, Some(ts(4, 0)));
    let failed = Worker::finished_result(running.duplicate(), Err("boom".to_string()), ts(9, 1));
    assert_eq!(failed.status, StepStatus::Failed);
    assert_eq!(failed.error.as_deref(), Some("boom"));
    assert!(failed.output.is_none());
    assert_eq!(failed.completed_at, Some(ts(9, 1)));
    let done = Worker::finished_result(running, Ok("{}".to_string()), ts(9, 2));
    assert_eq!(done.status, StepStatus::Completed);
    assert_eq!(duplicate_task_types(&vec![TaskType::DataPreparation]).len(), 1);
}

#[test]
fn a_second_sweep_at_the_same_instant_changes_nothing() {
    let mut s = Scheduler::new("amqp://x").unwrap();
    s.register_worker_at("old".to_string(), vec![], ts(0, 0)).unwrap();
    s.register_worker_at("new".to_string(), vec![], ts(40, 0)).unwrap();
    s.monitor_workers_at(ts(45, 0)).unwrap();
    assert_eq!(s.workers.len(), 1);
    s.monitor_workers_at(ts(45, 0)).unwrap();
    assert_eq!(s.workers.len(), 1);
    assert!(s.workers.get(&"new".to_string()).is_some());
    // A heartbeat just sent survives a sweep at that instant.
    s.worker_heartbeat_at("new", ts(1000, 0)).unwrap();
    s.monitor_workers_at(ts(1000, 0)).unwrap();
    assert!(s.workers.get(&"new".to_string()).is_some());
}

#[test]
fn manual_loops_fire_alike_in_engine_and_scheduler() {
    let mut e = engine();
    e.storage.save_workflow(sample_workflow(vec![manual(2, 1), manual(2, 0x55)])).unwrap();
    e.storage.save_instance(instance(7, 100)).unwrap();
    let from_engine = e.process_feedback(7, 2, &vec![Some(false), None]);
    let from_scheduler = e.scheduler.process_feedback(&e.storage, 7, 2);
    assert_eq!(from_engine, from_scheduler);
    assert_eq!(from_engine.unwrap_err(), "Step not found: 00000000-0000-0000-0000-000000000055");
}
