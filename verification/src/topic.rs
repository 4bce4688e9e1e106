//! The external messaging topic as the controller models it, and the
//! idempotent upsert plan: compare the stored resource with the desired
//! state and decide the one write that is needed — or none, so that a
//! converged resource is never rewritten.
use vstd::prelude::*;

verus! {

/// Settings of the controller instance.
pub struct ControllerConfig {
    /// Namespace the external topic resources live in.
    pub topic_namespace: String,
    /// The messaging cluster the topics are bound to.
    pub cluster_name: String,
}

impl Clone for ControllerConfig {
    fn clone(&self) -> (r: Self)
        ensures
            r == *self,
    {
        ControllerConfig {
            topic_namespace: self.topic_namespace.clone(),
            cluster_name: self.cluster_name.clone(),
        }
    }
}

/// The desired topic settings this controller manages.
pub struct TopicSpec {
    pub partitions: u32,
    pub replicas: u32,
    pub topic_name: String,
}

/// One status condition the external system reports on a topic.
pub struct TopicCondition {
    pub type_: String,
    pub status: String,
}

impl Clone for TopicCondition {
    fn clone(&self) -> (r: Self)
        ensures
            r == *self,
    {
        TopicCondition { type_: self.type_.clone(), status: self.status.clone() }
    }
}

/// The external topic resource: identity, the fields this controller
/// manages, and the status the external system owns.
pub struct Topic {
    pub name: String,
    pub namespace: String,
    /// Label binding the topic to its messaging cluster.
    pub cluster_label: Option<String>,
    /// Annotation naming the owning managed object.
    pub app_annotation: Option<String>,
    pub spec: Option<TopicSpec>,
    /// Status conditions, owned by the external system.
    pub conditions: Vec<TopicCondition>,
}

impl Clone for TopicSpec {
    fn clone(&self) -> (r: Self)
        ensures
            r == *self,
    {
        TopicSpec {
            partitions: self.partitions,
            replicas: self.replicas,
            topic_name: self.topic_name.clone(),
        }
    }
}

/// Topic agreement, content-wise: equal on every field, the condition
/// list compared by its contents.
pub open spec fn topic_eq(a: Topic, b: Topic) -> bool {
    &&& a.name == b.name
    &&& a.namespace == b.namespace
    &&& a.cluster_label == b.cluster_label
    &&& a.app_annotation == b.app_annotation
    &&& a.spec == b.spec
    &&& a.conditions@ == b.conditions@
}

impl Clone for Topic {
    fn clone(&self) -> (r: Self)
        ensures
            topic_eq(r, *self),
    {
        let n = self.conditions.len();
        let mut conditions: Vec<TopicCondition> = Vec::new();
        let mut i: usize = 0;
        while i < n
            invariant
                n == self.conditions@.len(),
                i <= n,
                conditions@ == self.conditions@.subrange(0, i as int),
            decreases n - i,
        {
            conditions.push(self.conditions[i].clone());
            assert(conditions@ == self.conditions@.subrange(0, i as int + 1));
            i += 1;
        }
        assert(conditions@ =~= self.conditions@);
        Topic {
            name: self.name.clone(),
            namespace: self.namespace.clone(),
            cluster_label: match &self.cluster_label {
                Some(l) => Some(l.clone()),
                None => None,
            },
            app_annotation: match &self.app_annotation {
                Some(a) => Some(a.clone()),
                None => None,
            },
            spec: match &self.spec {
                Some(s) => Some(s.clone()),
                None => None,
            },
            conditions,
        }
    }
}

/// True when the stored topic already matches the desired state on every
/// field this controller manages. Status conditions are not compared:
/// the external system owns them.
pub open spec fn spec_desired(
    cfg: ControllerConfig,
    app_name: Seq<char>,
    name: Seq<char>,
    t: Topic,
) -> bool {
    &&& t.cluster_label matches Some(l) && l@ == cfg.cluster_name@
    &&& t.app_annotation matches Some(a) && a@ == app_name
    &&& t.spec matches Some(s) && s.partitions == 3 && s.replicas == 1 && s.topic_name@ == name
}

/// True when `out` is `base` with the managed fields set to the desired
/// state and everything else kept.
pub open spec fn spec_mutated(
    cfg: ControllerConfig,
    app_name: Seq<char>,
    name: Seq<char>,
    base: Topic,
    out: Topic,
) -> bool {
    &&& spec_desired(cfg, app_name, name, out)
    &&& out.name == base.name
    &&& out.namespace == base.namespace
    &&& out.conditions@ == base.conditions@
}

/// The single write an upsert pass performs: create the absent resource,
/// rewrite a diverged one, or keep a converged one untouched.
pub enum UpsertPlan {
    Create(Topic),
    Update(Topic),
    Keep(Topic),
}

/// The topic a plan leaves in the external store once it is carried out.
pub open spec fn plan_result(r: UpsertPlan) -> Topic {
    match r {
        UpsertPlan::Create(t) => t,
        UpsertPlan::Update(t) => t,
        UpsertPlan::Keep(t) => t,
    }
}

/// What `plan_upsert` decides for a stored state and a desired state.
pub open spec fn upsert_plan_rel(
    current: Option<Topic>,
    cfg: ControllerConfig,
    app_name: Seq<char>,
    name: Seq<char>,
    r: UpsertPlan,
) -> bool {
    match r {
        UpsertPlan::Create(t) => current is None && spec_desired(cfg, app_name, name, t)
            && t.name@ == name && t.namespace@ == cfg.topic_namespace@ && t.conditions@
            == Seq::<TopicCondition>::empty(),
        UpsertPlan::Update(t) => current matches Some(c) && !spec_desired(cfg, app_name, name, c)
            && spec_mutated(cfg, app_name, name, c, t),
        UpsertPlan::Keep(t) => current matches Some(c) && spec_desired(cfg, app_name, name, c)
            && t == c,
    }
}

/// Decides the upsert for one pass: exactly one write (`Create` or
/// `Update`) when the stored state is absent or diverged, and none
/// (`Keep`) when it already matches — repeated passes cause no
/// resource-version churn.
pub fn plan_upsert(
    current: Option<Topic>,
    cfg: &ControllerConfig,
    app_name: &str,
    name: &str,
) -> (r: UpsertPlan)
    ensures
        upsert_plan_rel(current, *cfg, app_name@, name@, r),
{
    match current {
        None => {
            let t = Topic {
                name: String::from_str(name),
                namespace: cfg.topic_namespace.clone(),
                cluster_label: Some(cfg.cluster_name.clone()),
                app_annotation: Some(String::from_str(app_name)),
                spec: Some(
                    TopicSpec { partitions: 3, replicas: 1, topic_name: String::from_str(name) },
                ),
                conditions: Vec::new(),
            };
            UpsertPlan::Create(t)
        },
        Some(c) => {
            if topic_matches_desired(&c, cfg, app_name, name) {
                UpsertPlan::Keep(c)
            } else {
                let out = Topic {
                    name: c.name,
                    namespace: c.namespace,
                    cluster_label: Some(cfg.cluster_name.clone()),
                    app_annotation: Some(String::from_str(app_name)),
                    spec: Some(
                        TopicSpec {
                            partitions: 3,
                            replicas: 1,
                            topic_name: String::from_str(name),
                        },
                    ),
                    conditions: c.conditions,
                };
                UpsertPlan::Update(out)
            }
        },
    }
}

/// Whether the stored topic matches the desired state on the managed
/// fields.
fn topic_matches_desired(t: &Topic, cfg: &ControllerConfig, app_name: &str, name: &str) -> (r:
    bool)
    ensures
        r == spec_desired(*cfg, app_name@, name@, *t),
{
    let app_key = String::from_str(app_name);
    let name_key = String::from_str(name);
    let label_ok = match &t.cluster_label {
        Some(l) => *l == cfg.cluster_name,
        None => false,
    };
    if !label_ok {
        return false;
    }
    let annotation_ok = match &t.app_annotation {
        Some(a) => *a == app_key,
        None => false,
    };
    if !annotation_ok {
        return false;
    }
    match &t.spec {
        Some(s) => s.partitions == 3 && s.replicas == 1 && s.topic_name == name_key,
        None => false,
    }
}

/// Law: the upsert is idempotent. Whatever write the first pass planned,
/// the topic it leaves in the store needs no further write — a second
/// pass with the unchanged desired state plans `Keep`, so two passes in
/// a row issue exactly one write.
pub proof fn lemma_upsert_idempotent(
    current: Option<Topic>,
    cfg: ControllerConfig,
    app_name: Seq<char>,
    name: Seq<char>,
    first: UpsertPlan,
    second: UpsertPlan,
)
    requires
        upsert_plan_rel(current, cfg, app_name, name, first),
        upsert_plan_rel(Some(plan_result(first)), cfg, app_name, name, second),
    ensures
        second is Keep,
        plan_result(second) == plan_result(first),
{
}

} // verus!
