use topic_operator::conditions::{Condition, ConditionStatus, Conditions, KafkaAppStatus, ReadyState};
use topic_operator::model::{Application, Metadata};
use topic_operator::queue::{dispatch_event, is_relevant, Event, WorkQueue};
use topic_operator::reconcile::{
    ApplicationReconciler, ConstructBegin, ConstructContext, DeconstructContext, Outcome,
    ProcessOutcome, ReconcileError, ReconcileState,
};
use topic_operator::topic::{ControllerConfig, Topic, TopicCondition, UpsertPlan};
use topic_operator::topic::plan_upsert;

fn config() -> ControllerConfig {
    ControllerConfig {
        topic_namespace: "messaging".to_string(),
        cluster_name: "main-cluster".to_string(),
    }
}

fn reconciler() -> ApplicationReconciler {
    ApplicationReconciler { config: config() }
}

fn app(name: &str, finalizers: Vec<String>, deleted: bool) -> Application {
    Application {
        metadata: Metadata {
            name: name.to_string(),
            generation: 7,
            deletion_timestamp: if deleted { Some(1000) } else { None },
            finalizers,
        },
        status: None,
    }
}

fn ready_topic(r: &ApplicationReconciler, name: &str, ready: bool) -> Topic {
    match plan_upsert(None, &r.config, name, &format!("events-{}", name)) {
        UpsertPlan::Create(mut t) => {
            t.conditions = vec![TopicCondition {
                type_: "Ready".to_string(),
                status: if ready { "True".to_string() } else { "False".to_string() },
            }];
            t
        }
        _ => panic!("a missing topic must be created"),
    }
}

fn reconciled_condition(a: &Application) -> Condition {
    let status = a.status.as_ref().expect("status section written");
    let c = status
        .conditions
        .get("Reconciled")
        .expect("reconcile condition written");
    Condition {
        type_: c.type_.clone(),
        status: c.status,
        reason: c.reason.clone(),
        message: c.message.clone(),
        last_transition_time: c.last_transition_time,
    }
}

#[test]
fn eval_state_constructs_without_finalizer_when_not_deleted() {
    let r = reconciler();
    match r.eval_state(app("foo", vec![], false)) {
        Ok(ReconcileState::Construct(c)) => {
            assert_eq!(c.app.metadata.name, "foo");
            assert!(c.topic.is_none());
        }
        _ => panic!("a live object must be constructed"),
    }
}

#[test]
fn eval_state_deconstructs_with_finalizer_when_deleted() {
    let r = reconciler();
    match r.eval_state(app("foo", vec!["kafka".to_string()], true)) {
        Ok(ReconcileState::Deconstruct(d)) => assert_eq!(d.app.metadata.name, "foo"),
        _ => panic!("a deleted object with the finalizer must be deconstructed"),
    }
}

#[test]
fn eval_state_ignores_deleted_object_without_finalizer() {
    let r = reconciler();
    let before = app("foo", vec!["other".to_string()], true);
    match r.eval_state(before) {
        Ok(ReconcileState::Ignore(a)) => {
            assert_eq!(a.metadata.name, "foo");
            assert_eq!(a.metadata.finalizers, vec!["other".to_string()]);
            assert!(a.status.is_none());
        }
        _ => panic!("a deleted object without the finalizer is ignored"),
    }
}

#[test]
fn finalizer_step_pauses_once_then_passes() {
    let r = reconciler();
    let ctx = ConstructContext { app: app("foo", vec![], false), status: None, topic: None };
    let first = r.has_finalizer_step(ctx);
    let ctx = match first {
        Outcome::Retry(c, None) => {
            assert!(c.app.metadata.finalizers.contains(&"kafka".to_string()));
            c
        }
        _ => panic!("adding the finalizer must pause the pass at once"),
    };
    match r.has_finalizer_step(ctx) {
        Outcome::Continue(c) => {
            assert!(c.app.metadata.finalizers.contains(&"kafka".to_string()));
        }
        _ => panic!("a present finalizer must let the pass continue"),
    }
}

#[test]
fn upsert_creates_then_keeps() {
    let cfg = config();
    let first = plan_upsert(None, &cfg, "foo", "events-foo");
    let written = match first {
        UpsertPlan::Create(t) => {
            assert_eq!(t.name, "events-foo");
            assert_eq!(t.namespace, "messaging");
            assert_eq!(t.cluster_label.as_deref(), Some("main-cluster"));
            assert_eq!(t.app_annotation.as_deref(), Some("foo"));
            let spec = t.spec.as_ref().expect("spec set");
            assert_eq!((spec.partitions, spec.replicas), (3, 1));
            assert_eq!(spec.topic_name, "events-foo");
            t
        }
        _ => panic!("a missing topic must be created"),
    };
    // A second pass with the unchanged desired state issues no write.
    match plan_upsert(Some(written), &cfg, "foo", "events-foo") {
        UpsertPlan::Keep(t) => assert_eq!(t.name, "events-foo"),
        _ => panic!("a converged topic must not be rewritten"),
    }
}

#[test]
fn upsert_rewrites_diverged_topic() {
    let cfg = config();
    let mut t = match plan_upsert(None, &cfg, "foo", "events-foo") {
        UpsertPlan::Create(t) => t,
        _ => panic!("a missing topic must be created"),
    };
    t.cluster_label = Some("someone-else".to_string());
    match plan_upsert(Some(t), &cfg, "foo", "events-foo") {
        UpsertPlan::Update(u) => {
            assert_eq!(u.cluster_label.as_deref(), Some("main-cluster"));
        }
        _ => panic!("a diverged topic must be updated"),
    }
}

#[test]
fn construct_end_to_end() {
    let r = reconciler();
    let now = 50;

    // Pass one: no finalizer yet; it is added and the pass pauses with
    // an immediate requeue.
    let ctx = ConstructContext { app: app("foo", vec![], false), status: None, topic: None };
    let app1 = match r.construct_begin(ctx, now) {
        ConstructBegin::Done(ProcessOutcome::Retry(a, None)) => {
            assert!(a.metadata.finalizers.contains(&"kafka".to_string()));
            let c = reconciled_condition(&a);
            assert_eq!(c.status, ConditionStatus::Unknown);
            a
        }
        _ => panic!("the first pass must pause after adding the finalizer"),
    };

    // Pass two: finalizer present, topic created but not yet ready;
    // requeue with the fixed poll delay.
    let status = app1.status.clone();
    let ctx = ConstructContext { app: app1, status, topic: None };
    let ctx = match r.construct_begin(ctx, now) {
        ConstructBegin::NeedTopic(c) => c,
        _ => panic!("with the finalizer present the pass proceeds to the upsert"),
    };
    let topic = ready_topic(&r, "foo", false);
    let app2 = match r.construct_finish(ctx, Ok(topic), now + 1) {
        ProcessOutcome::Retry(a, Some(15)) => {
            let c = reconciled_condition(&a);
            assert_eq!(c.status, ConditionStatus::Unknown);
            assert_eq!(c.reason, "Progressing");
            a
        }
        _ => panic!("an unready topic must requeue with the poll delay"),
    };

    // Pass three: the topic reports ready; the pass completes with the
    // reconcile condition true against the object's generation.
    let status = app2.status.clone();
    let ctx = ConstructContext { app: app2, status, topic: None };
    let ctx = match r.construct_begin(ctx, now + 2) {
        ConstructBegin::NeedTopic(c) => c,
        _ => panic!("with the finalizer present the pass proceeds to the upsert"),
    };
    let topic = ready_topic(&r, "foo", true);
    match r.construct_finish(ctx, Ok(topic), now + 2) {
        ProcessOutcome::Complete(a) => {
            let status = a.status.as_ref().expect("status written");
            assert_eq!(status.observed_generation, a.metadata.generation);
            let c = reconciled_condition(&a);
            assert_eq!(c.status, ConditionStatus::True);
            assert_eq!(c.reason, "AsExpected");
        }
        _ => panic!("a ready topic must complete the pass"),
    }
}

#[test]
fn permanent_failure_completes_without_requeue() {
    let r = reconciler();
    let ctx = ConstructContext {
        app: app("foo", vec!["kafka".to_string()], false),
        status: None,
        topic: None,
    };
    let err = ReconcileError::Permanent("broken".to_string());
    match r.construct_finish(ctx, Err(err), 9) {
        ProcessOutcome::Complete(a) => {
            let c = reconciled_condition(&a);
            assert_eq!(c.status, ConditionStatus::False);
            assert_eq!(c.reason, "Failed");
            assert_eq!(c.message, "broken");
        }
        _ => panic!("a permanent failure is recorded and not requeued"),
    }
}

#[test]
fn temporary_failure_requeues_with_default_backoff() {
    let r = reconciler();
    let ctx = ConstructContext {
        app: app("foo", vec!["kafka".to_string()], false),
        status: None,
        topic: None,
    };
    let err = ReconcileError::Temporary("api down".to_string());
    match r.construct_finish(ctx, Err(err), 9) {
        ProcessOutcome::Retry(a, None) => {
            let c = reconciled_condition(&a);
            assert_eq!(c.status, ConditionStatus::False);
            assert_eq!(c.message, "api down");
        }
        _ => panic!("a transient failure is recorded and requeued"),
    }
}

#[test]
fn deconstruct_removes_finalizer() {
    let r = reconciler();
    let ctx = DeconstructContext {
        app: app("foo", vec!["other".to_string(), "kafka".to_string()], true),
        status: None,
    };
    match r.deconstruct(ctx) {
        ProcessOutcome::Complete(a) => {
            assert_eq!(a.metadata.finalizers, vec!["other".to_string()]);
        }
        _ => panic!("deconstruction completes once the delete has succeeded"),
    }
}

#[test]
fn condition_update_keeps_transition_time_while_status_unchanged() {
    let mut conditions = Conditions::new();
    conditions.update("Reconciled", &ReadyState::Progressing, 10);
    conditions.update("Reconciled", &ReadyState::Progressing, 20);
    let c = conditions.get("Reconciled").expect("present");
    assert_eq!(c.last_transition_time, 10);
    conditions.update("Reconciled", &ReadyState::Complete, 30);
    let c = conditions.get("Reconciled").expect("present");
    assert_eq!(c.last_transition_time, 30);
    assert_eq!(c.status, ConditionStatus::True);
}

#[test]
fn condition_update_preserves_other_types() {
    let mut conditions = Conditions(vec![Condition {
        type_: "SomeoneElses".to_string(),
        status: ConditionStatus::True,
        reason: "External".to_string(),
        message: "kept".to_string(),
        last_transition_time: 5,
    }]);
    conditions.update("Reconciled", &ReadyState::Failed("why".to_string()), 42);
    let other = conditions.get("SomeoneElses").expect("still present");
    assert_eq!(other.message, "kept");
    assert_eq!(other.last_transition_time, 5);
    let ours = conditions.get("Reconciled").expect("written");
    assert_eq!(ours.status, ConditionStatus::False);
    assert_eq!(ours.message, "why");
}

#[test]
fn status_section_records_generation() {
    assert_eq!(KafkaAppStatus::ready_name(), "KafkaReady");
    let mut section = KafkaAppStatus { conditions: Conditions::new(), observed_generation: 0 };
    section.update_status(Conditions::new(), 12);
    assert_eq!(section.observed_generation, 12);
}

#[test]
fn relevant_events_yield_keys() {
    let creation = Event::Application {
        instance: "default".to_string(),
        application: "foo".to_string(),
        path: ".".to_string(),
    };
    assert_eq!(is_relevant(&creation), Some("foo".to_string()));
    let metadata = Event::Application {
        instance: "default".to_string(),
        application: "foo".to_string(),
        path: ".metadata".to_string(),
    };
    assert_eq!(is_relevant(&metadata), Some("foo".to_string()));
    let spec_change = Event::Application {
        instance: "default".to_string(),
        application: "foo".to_string(),
        path: ".spec".to_string(),
    };
    assert_eq!(is_relevant(&spec_change), None);
    assert_eq!(is_relevant(&Event::Other), None);
}

#[test]
fn queue_deduplicates_and_runs_single_flight() {
    let mut q = WorkQueue::new(2);
    let creation = Event::Application {
        instance: "default".to_string(),
        application: "foo".to_string(),
        path: ".".to_string(),
    };
    dispatch_event(&mut q, &creation, 1);
    dispatch_event(&mut q, &creation, 2);
    assert_eq!(q.entries.len(), 1);

    let polled = q.poll(5).expect("one entry is due");
    assert_eq!(polled, "foo");
    // Single-flight: nothing else is dispatched while one runs.
    dispatch_event(&mut q, &creation, 5);
    assert_eq!(q.poll(5), None);

    // The run asks for a retry in 15 seconds, but the fresh notification
    // keeps the earlier due time.
    q.complete(Some(Some(15)), 6);
    assert_eq!(q.entries.len(), 1);
    let polled = q.poll(6).expect("the pending notification runs at once");
    assert_eq!(polled, "foo");
    q.complete(None, 7);
    assert_eq!(q.poll(7), None);
}

#[test]
fn queue_backoff_grows_and_resets() {
    let mut q = WorkQueue::new(10);
    q.notify("foo".to_string(), 0);
    assert_eq!(q.poll(0), Some("foo".to_string()));
    q.complete(Some(None), 0);
    // First default backoff: base * 1.
    assert_eq!(q.entries[0].not_before, 10);
    assert_eq!(q.entries[0].attempts, 1);
    assert_eq!(q.poll(9), None);
    assert_eq!(q.poll(10), Some("foo".to_string()));
    q.complete(Some(None), 10);
    // Second default backoff: base * 2.
    assert_eq!(q.entries[0].not_before, 30);
    assert_eq!(q.poll(30), Some("foo".to_string()));
    // Success forgets the attempts.
    q.complete(None, 31);
    assert_eq!(q.entries.len(), 0);
    q.notify("foo".to_string(), 31);
    assert_eq!(q.entries[0].attempts, 0);
}

#[test]
fn recover_records_failure_against_generation() {
    let r = reconciler();
    let recovered = r
        .recover("status write failed", app("foo", vec![], false), 77)
        .expect("recover always succeeds");
    let status = recovered.status.as_ref().expect("status written");
    assert_eq!(status.observed_generation, 7);
    let c = reconciled_condition(&recovered);
    assert_eq!(c.status, ConditionStatus::False);
    assert_eq!(c.message, "status write failed");
}
