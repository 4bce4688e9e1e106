//! The per-object reconciler: evaluates whether an incoming object
//! version is constructed, deconstructed or ignored, runs the ordered
//! idempotent construction steps, and translates the outcome into a
//! status update and a requeue decision.
//!
//! The construction pipeline runs in two halves around its one external
//! write. `construct_begin` runs the finalizer step; when it pauses, the
//! caller persists the object and re-observes it before anything
//! external is created. Otherwise the caller performs the topic upsert
//! the plan in `topic` decides, and hands the result to
//! `construct_finish`, which runs the readiness step and translates the
//! pipeline outcome. The caller never decides; it only transports.
use vstd::prelude::*;
use crate::conditions::{
    condition_reconciled, conditions_wf, spec_condition_reconciled, spec_get, Condition,
    ConditionStatus, Conditions, KafkaAppStatus, ReadyState,
};
use crate::model::{spec_deleted, spec_has_finalizer, spec_remove_finalizer, Application};
use crate::naming::{topic_name, topic_resource_name};
use crate::topic::{Topic, TopicCondition};

verus! {

/// An error that ends a reconcile pass.
pub enum ReconcileError {
    /// Will not resolve by retrying; recorded, not requeued.
    Permanent(String),
    /// Transient; recorded and requeued with backoff.
    Temporary(String),
}

impl Clone for ReconcileError {
    fn clone(&self) -> (r: Self)
        ensures
            r == *self,
    {
        match self {
            ReconcileError::Permanent(m) => ReconcileError::Permanent(m.clone()),
            ReconcileError::Temporary(m) => ReconcileError::Temporary(m.clone()),
        }
    }
}

/// What one reconcile pass reports: done, or run again (after an
/// optional delay in seconds; absent means the caller's default backoff).
pub enum ProcessOutcome<T> {
    Complete(T),
    Retry(T, Option<u64>),
}

/// Working state of a construct pass.
pub struct ConstructContext {
    pub app: Application,
    /// The status section as it was when the pass began.
    pub status: Option<KafkaAppStatus>,
    /// The topic observed by the upsert step, once it has run.
    pub topic: Option<Topic>,
}

/// Working state of a deconstruct pass.
pub struct DeconstructContext {
    pub app: Application,
    pub status: Option<KafkaAppStatus>,
}

/// What is to happen with an incoming object version.
pub enum ReconcileState {
    Construct(ConstructContext),
    Deconstruct(DeconstructContext),
    Ignore(Application),
}

/// What a single construction step decides: go on, or pause the pass and
/// run it again (after an optional delay in seconds).
pub enum Outcome {
    Continue(ConstructContext),
    Retry(ConstructContext, Option<u64>),
}

/// The context a step outcome carries.
pub open spec fn outcome_context(r: Outcome) -> ConstructContext {
    match r {
        Outcome::Continue(c) => c,
        Outcome::Retry(c, _) => c,
    }
}

/// The conditions a status section holds; none yet when absent.
pub open spec fn spec_base_conditions(status: Option<KafkaAppStatus>) -> Seq<Condition> {
    match status {
        Some(s) => s.conditions@,
        None => Seq::<Condition>::empty(),
    }
}

/// The status section a finished pass writes: the base conditions with
/// the reconcile condition set to the given status, reason and message
/// (transition time kept while the status value is unchanged), every
/// other condition type untouched, and the generation it was computed
/// from recorded.
pub open spec fn spec_reconciled_written(
    written: Option<KafkaAppStatus>,
    base: Seq<Condition>,
    status: ConditionStatus,
    reason: Seq<char>,
    message: Seq<char>,
    now: u64,
    gen: u64,
) -> bool {
    &&& written matches Some(s)
    &&& {
        let s = written->Some_0;
        &&& s.observed_generation == gen
        &&& conditions_wf(s.conditions@)
        &&& spec_get(s.conditions@, spec_condition_reconciled()) matches Some(c) && c.status
            == status && c.reason@ == reason && c.message@ == message && c.last_transition_time
            == (match spec_get(base, spec_condition_reconciled()) {
            Some(o) => if o.status == status {
                o.last_transition_time
            } else {
                now
            },
            None => now,
        })
        &&& forall|t2: Seq<char>|
            t2 != spec_condition_reconciled() ==> spec_get(s.conditions@, t2) == spec_get(base, t2)
    }
}

/// The readiness the external system reports on a topic: the first
/// readiness condition with a definite status decides.
pub open spec fn spec_ready_status(cs: Seq<TopicCondition>) -> Option<bool>
    decreases cs.len(),
{
    if cs.len() == 0 {
        None
    } else if cs[0].type_@ == "Ready"@ && cs[0].status@ == "True"@ {
        Some(true)
    } else if cs[0].type_@ == "Ready"@ && cs[0].status@ == "False"@ {
        Some(false)
    } else {
        spec_ready_status(cs.drop_first())
    }
}

/// What the finalizer step does to a context.
pub open spec fn finalizer_step_rel(pre: ConstructContext, r: Outcome) -> bool {
    match r {
        Outcome::Continue(c) => spec_has_finalizer(pre.app.metadata) && c == pre,
        Outcome::Retry(c, d) => {
            &&& !spec_has_finalizer(pre.app.metadata)
            &&& d is None
            &&& spec_has_finalizer(c.app.metadata)
            &&& c.app.metadata.name == pre.app.metadata.name
            &&& c.app.metadata.generation == pre.app.metadata.generation
            &&& c.app.metadata.deletion_timestamp == pre.app.metadata.deletion_timestamp
            &&& c.app.status == pre.app.status
            &&& c.status == pre.status
            &&& c.topic == pre.topic
        },
    }
}

/// The per-object reconciler; holds the controller settings.
pub struct ApplicationReconciler {
    pub config: crate::topic::ControllerConfig,
}

impl ApplicationReconciler {
    /// Derives the external resource name for a managed object.
    pub fn make_topic_resource_name(app: &Application) -> (r: String)
        ensures
            r@ == topic_name(app.metadata.name@),
    {
        topic_resource_name(app.metadata.name.as_str())
    }

    /// Chooses the path for an incoming object version: construct while
    /// the object is not being deleted, deconstruct when it is and the
    /// finalizer is still present, and ignore a deleted object that
    /// carries no finalizer (nothing to clean up, the object untouched).
    pub fn eval_state(&self, app: Application) -> (r: Result<ReconcileState, ReconcileError>)
        ensures
            r matches Ok(s) && match s {
                ReconcileState::Construct(c) => !spec_deleted(app.metadata) && c.app == app
                    && crate::model::status_eq(c.status, app.status) && c.topic is None,
                ReconcileState::Deconstruct(d) => spec_deleted(app.metadata) && spec_has_finalizer(
                    app.metadata,
                ) && d.app == app && crate::model::status_eq(d.status, app.status),
                ReconcileState::Ignore(a) => spec_deleted(app.metadata) && !spec_has_finalizer(
                    app.metadata,
                ) && a == app,
            },
    {
        let status = match &app.status {
            Some(s) => Some(s.clone()),
            None => None,
        };
        let configured = app.metadata.has_finalizer();
        let deleted = app.metadata.deletion_timestamp.is_some();
        if !deleted {
            Ok(ReconcileState::Construct(ConstructContext { app, status, topic: None }))
        } else if configured {
            Ok(ReconcileState::Deconstruct(DeconstructContext { app, status }))
        } else {
            Ok(ReconcileState::Ignore(app))
        }
    }

    /// First construction step: make sure the finalizer is persisted
    /// before anything external is created. When it was absent the pass
    /// pauses at once so the caller can write the object and re-observe
    /// it.
    pub fn has_finalizer_step(&self, ctx: ConstructContext) -> (r: Outcome)
        ensures
            finalizer_step_rel(ctx, r),
    {
        let ConstructContext { mut app, status, topic } = ctx;
        let added = app.metadata.ensure_finalizer();
        if added {
            Outcome::Retry(ConstructContext { app, status, topic }, None)
        } else {
            Outcome::Continue(ConstructContext { app, status, topic })
        }
    }

    /// Second construction step, after the upsert has run: store the
    /// observed topic and continue; an upsert failure aborts the run.
    pub fn create_topic_step(
        &self,
        ctx: ConstructContext,
        upsert: Result<Topic, ReconcileError>,
    ) -> (r: Result<Outcome, ReconcileError>)
        ensures
            upsert matches Ok(t) ==> r matches Ok(o) && o matches Outcome::Continue(c) && c.app
                == ctx.app && c.status == ctx.status && c.topic == Some(t),
            upsert matches Err(e) ==> r matches Err(e2) && e2 == e,
    {
        match upsert {
            Ok(t) => Ok(
                Outcome::Continue(
                    ConstructContext { app: ctx.app, status: ctx.status, topic: Some(t) },
                ),
            ),
            Err(e) => Err(e),
        }
    }

    /// The readiness the external system reports on the topic, when it
    /// reports one.
    pub fn is_topic_ready(topic: &Topic) -> (r: Option<bool>)
        ensures
            r == spec_ready_status(topic.conditions@),
    {
        let ready_key = String::from_str("Ready");
        let true_key = String::from_str("True");
        let false_key = String::from_str("False");
        let n = topic.conditions.len();
        let mut i: usize = 0;
        proof {
            assert(topic.conditions@.skip(0) =~= topic.conditions@);
        }
        while i < n
            invariant
                n == topic.conditions@.len(),
                i <= n,
                ready_key@ == "Ready"@,
                true_key@ == "True"@,
                false_key@ == "False"@,
                spec_ready_status(topic.conditions@) == spec_ready_status(
                    topic.conditions@.skip(i as int),
                ),
            decreases n - i,
        {
            let ghost rest = topic.conditions@.skip(i as int);
            proof {
                assert(rest.len() > 0);
                assert(rest[0] == topic.conditions@[i as int]);
                assert(rest.drop_first() =~= topic.conditions@.skip(i as int + 1));
            }
            let c = &topic.conditions[i];
            if c.type_ == ready_key {
                if c.status == true_key {
                    return Some(true);
                }
                if c.status == false_key {
                    return Some(false);
                }
            }
            i += 1;
        }
        proof {
            assert(topic.conditions@.skip(n as int) =~= Seq::<TopicCondition>::empty());
        }
        None
    }

    /// Third construction step: continue once the external system
    /// reports the topic ready; otherwise pause and poll again after a
    /// fixed delay — the external system converges asynchronously.
    pub fn topic_ready_step(&self, ctx: ConstructContext) -> (r: Outcome)
        ensures
            ({
                let ready = ctx.topic matches Some(t) && spec_ready_status(t.conditions@) == Some(
                    true,
                );
                match r {
                    Outcome::Continue(c) => ready && c == ctx,
                    Outcome::Retry(c, d) => !ready && c == ctx && d == Some(15u64),
                }
            }),
    {
        let ready = match &ctx.topic {
            Some(t) => match Self::is_topic_ready(t) {
                Some(b) => b,
                None => false,
            },
            None => false,
        };
        if ready {
            Outcome::Continue(ctx)
        } else {
            Outcome::Retry(ctx, Some(15))
        }
    }

    /// First half of the construct pass. When the finalizer step pauses
    /// (the finalizer was just added), the pause is already translated:
    /// the reconcile condition is set to progressing, the status is
    /// written against the object's generation, and the mutated object is
    /// handed back for an immediate requeue — the caller persists it and
    /// the pass runs again. Otherwise the unchanged context comes back
    /// and the caller proceeds to the topic upsert.
    pub fn construct_begin(&self, ctx: ConstructContext, now: u64) -> (r: ConstructBegin)
        requires
            conditions_wf(spec_base_conditions(ctx.status)),
        ensures
            spec_has_finalizer(ctx.app.metadata) ==> (r matches ConstructBegin::NeedTopic(c) && c
                == ctx),
            !spec_has_finalizer(ctx.app.metadata) ==> (r matches ConstructBegin::Done(o)
                && o matches ProcessOutcome::Retry(a, d) && d is None && spec_has_finalizer(
                a.metadata,
            ) && a.metadata.name == ctx.app.metadata.name && a.metadata.generation
                == ctx.app.metadata.generation && a.metadata.deletion_timestamp
                == ctx.app.metadata.deletion_timestamp && spec_reconciled_written(
                a.status,
                spec_base_conditions(ctx.status),
                ConditionStatus::Unknown,
                "Progressing"@,
                Seq::<char>::empty(),
                now,
                ctx.app.metadata.generation,
            )),
    {
        let gen = ctx.app.metadata.generation;
        let ghost base = spec_base_conditions(ctx.status);
        match self.has_finalizer_step(ctx) {
            Outcome::Continue(c) => ConstructBegin::NeedTopic(c),
            Outcome::Retry(c, _) => {
                let ConstructContext { mut app, status, topic: _ } = c;
                let mut conditions = match &status {
                    Some(s) => s.conditions.clone(),
                    None => Conditions::new(),
                };
                conditions.update(condition_reconciled(), &ReadyState::Progressing, now);
                app.finish_ready(conditions, gen);
                ConstructBegin::Done(ProcessOutcome::Retry(app, None))
            },
        }
    }

    /// Second half of the construct pass, once the topic upsert has run
    /// (the finalizer being already present): runs the readiness step
    /// and translates the pipeline outcome. Readiness completes the pass
    /// with the reconcile condition true; a not-yet-ready topic pauses
    /// it as progressing with the fixed poll delay; an upsert error
    /// records the failure on the pre-pass object — with a requeue under
    /// the caller's default backoff when the error is transient, without
    /// one when it is permanent.
    pub fn construct_finish(
        &self,
        ctx: ConstructContext,
        upsert: Result<Topic, ReconcileError>,
        now: u64,
    ) -> (r: ProcessOutcome<Application>)
        requires
            conditions_wf(spec_base_conditions(ctx.status)),
        ensures
            ({
                let base = spec_base_conditions(ctx.status);
                let gen = ctx.app.metadata.generation;
                match upsert {
                    Ok(t) => {
                        if spec_ready_status(t.conditions@) == Some(true) {
                            r matches ProcessOutcome::Complete(a) && a.metadata
                                == ctx.app.metadata && spec_reconciled_written(
                                a.status,
                                base,
                                ConditionStatus::True,
                                "AsExpected"@,
                                Seq::<char>::empty(),
                                now,
                                gen,
                            )
                        } else {
                            r matches ProcessOutcome::Retry(a, d) && d == Some(15u64) && a.metadata
                                == ctx.app.metadata && spec_reconciled_written(
                                a.status,
                                base,
                                ConditionStatus::Unknown,
                                "Progressing"@,
                                Seq::<char>::empty(),
                                now,
                                gen,
                            )
                        }
                    },
                    Err(e) => {
                        let retried = match r {
                            ProcessOutcome::Complete(_) => false,
                            ProcessOutcome::Retry(_, d) => d is None,
                        };
                        let a = match r {
                            ProcessOutcome::Complete(a) => a,
                            ProcessOutcome::Retry(a, _) => a,
                        };
                        &&& (e matches ReconcileError::Permanent(_) ==> !retried)
                        &&& (e matches ReconcileError::Temporary(_) ==> retried)
                        &&& a.metadata == ctx.app.metadata
                        &&& spec_reconciled_written(
                            a.status,
                            base,
                            ConditionStatus::False,
                            "Failed"@,
                            (match e {
                                ReconcileError::Permanent(m) => m@,
                                ReconcileError::Temporary(m) => m@,
                            }),
                            now,
                            gen,
                        )
                    },
                }
            }),
    {
        let gen = ctx.app.metadata.generation;
        let mut conditions = match &ctx.status {
            Some(s) => s.conditions.clone(),
            None => Conditions::new(),
        };
        match upsert {
            Ok(t) => {
                // The upsert went through: store the observed topic and
                // let the readiness step decide.
                let after = match self.create_topic_step(ctx, Ok(t)) {
                    Ok(Outcome::Continue(c)) => self.topic_ready_step(c),
                    Ok(Outcome::Retry(c, d)) => Outcome::Retry(c, d),
                    Err(_) => vstd::pervasive::unreached(),
                };
                match after {
                    Outcome::Continue(c) => {
                        let ConstructContext { mut app, status: _, topic: _ } = c;
                        conditions.update(condition_reconciled(), &ReadyState::Complete, now);
                        app.finish_ready(conditions, gen);
                        ProcessOutcome::Complete(app)
                    },
                    Outcome::Retry(c, d) => {
                        let ConstructContext { mut app, status: _, topic: _ } = c;
                        conditions.update(condition_reconciled(), &ReadyState::Progressing, now);
                        app.finish_ready(conditions, gen);
                        ProcessOutcome::Retry(app, d)
                    },
                }
            },
            Err(e) => {
                // The failure is recorded on the pre-pass object.
                let message = match &e {
                    ReconcileError::Permanent(m) => m.clone(),
                    ReconcileError::Temporary(m) => m.clone(),
                };
                let ConstructContext { mut app, status: _, topic: _ } = ctx;
                conditions.update(condition_reconciled(), &ReadyState::Failed(message), now);
                app.finish_ready(conditions, gen);
                match e {
                    ReconcileError::Permanent(_) => ProcessOutcome::Complete(app),
                    ReconcileError::Temporary(_) => ProcessOutcome::Retry(app, None),
                }
            },
        }
    }

    /// Deconstruct path, run once the external topic delete has
    /// succeeded (absence counting as success): removes the finalizer so
    /// that storage may delete the object. A failed delete never reaches
    /// this point — the caller keeps retrying it, and the finalizer
    /// stays until it succeeds.
    pub fn deconstruct(&self, ctx: DeconstructContext) -> (r: ProcessOutcome<Application>)
        ensures
            r matches ProcessOutcome::Complete(a) && !spec_has_finalizer(a.metadata)
                && a.metadata.finalizers@ == spec_remove_finalizer(ctx.app.metadata.finalizers@)
                && a.metadata.name == ctx.app.metadata.name && a.metadata.generation
                == ctx.app.metadata.generation && a.metadata.deletion_timestamp
                == ctx.app.metadata.deletion_timestamp && a.status == ctx.app.status,
    {
        let DeconstructContext { mut app, status: _ } = ctx;
        app.metadata.remove_finalizer();
        ProcessOutcome::Complete(app)
    }

    /// Records a reconcile failure on the object: the reconcile
    /// condition becomes false with the message, against the current
    /// generation. Used when a pass was aborted before it could write
    /// its own status.
    pub fn recover(&self, message: &str, app: Application, now: u64) -> (r: Result<
        Application,
        (),
    >)
        requires
            conditions_wf(spec_base_conditions(app.status)),
        ensures
            r matches Ok(a) && a.metadata == app.metadata && spec_reconciled_written(
                a.status,
                spec_base_conditions(app.status),
                ConditionStatus::False,
                "Failed"@,
                message@,
                now,
                app.metadata.generation,
            ),
    {
        let mut out = app;
        let gen = out.metadata.generation;
        let mut conditions = match &out.status {
            Some(s) => s.conditions.clone(),
            None => Conditions::new(),
        };
        conditions.update(condition_reconciled(), &ReadyState::Failed(String::from_str(message)), now);
        out.finish_ready(conditions, gen);
        Ok(out)
    }
}

/// What the first half of a construct pass yields: a finished outcome,
/// or the context to continue with once the topic upsert has run.
pub enum ConstructBegin {
    Done(ProcessOutcome<Application>),
    NeedTopic(ConstructContext),
}

/// Law: the finalizer step stabilizes after one run. Whatever context it
/// started from, the context it produces carries the finalizer, and a
/// second run over that context proceeds past the step without touching
/// it.
pub proof fn lemma_finalizer_step_stabilizes(pre: ConstructContext, first: Outcome, second: Outcome)
    requires
        finalizer_step_rel(pre, first),
        finalizer_step_rel(outcome_context(first), second),
    ensures
        spec_has_finalizer(outcome_context(first).app.metadata),
        second is Continue,
        outcome_context(second) == outcome_context(first),
{
}

} // verus!
