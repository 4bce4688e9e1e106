//! Typed status conditions with merge/update semantics: updating a
//! condition keeps its transition time while the status is unchanged,
//! and never touches conditions of other types.
use vstd::prelude::*;

verus! {

/// Status values a condition can take.
#[derive(Clone, Copy, PartialEq, Eq, Structural, Debug)]
pub enum ConditionStatus {
    True,
    False,
    Unknown,
}

/// One typed, timestamped status flag.
pub struct Condition {
    /// The condition type tag, unique within a condition set.
    pub type_: String,
    pub status: ConditionStatus,
    pub reason: String,
    pub message: String,
    /// When `status` last changed value.
    pub last_transition_time: u64,
}

impl Clone for Condition {
    fn clone(&self) -> (r: Self)
        ensures
            r == *self,
    {
        Condition {
            type_: self.type_.clone(),
            status: self.status,
            reason: self.reason.clone(),
            message: self.message.clone(),
            last_transition_time: self.last_transition_time,
        }
    }
}

/// The overall result a reconcile pass reports for one condition type.
pub enum ReadyState {
    /// The desired state has been reached.
    Complete,
    /// Work continues; a further pass is needed.
    Progressing,
    /// The pass failed; carries the error message.
    Failed(String),
}

impl ReadyState {
    /// The condition status recorded for this state.
    pub open spec fn spec_status(&self) -> ConditionStatus {
        match self {
            ReadyState::Complete => ConditionStatus::True,
            ReadyState::Progressing => ConditionStatus::Unknown,
            ReadyState::Failed(_) => ConditionStatus::False,
        }
    }

    /// The reason recorded for this state.
    pub open spec fn spec_reason(&self) -> Seq<char> {
        match self {
            ReadyState::Complete => "AsExpected"@,
            ReadyState::Progressing => "Progressing"@,
            ReadyState::Failed(_) => "Failed"@,
        }
    }

    /// The message recorded for this state: the error message on failure,
    /// empty otherwise.
    pub open spec fn spec_message(&self) -> Seq<char> {
        match self {
            ReadyState::Failed(m) => m@,
            _ => Seq::<char>::empty(),
        }
    }

    /// The condition status recorded for this state.
    pub fn status_value(&self) -> (r: ConditionStatus)
        ensures
            r == self.spec_status(),
    {
        match self {
            ReadyState::Complete => ConditionStatus::True,
            ReadyState::Progressing => ConditionStatus::Unknown,
            ReadyState::Failed(_) => ConditionStatus::False,
        }
    }

    /// The reason recorded for this state.
    pub fn reason_value(&self) -> (r: String)
        ensures
            r@ == self.spec_reason(),
    {
        match self {
            ReadyState::Complete => String::from_str("AsExpected"),
            ReadyState::Progressing => String::from_str("Progressing"),
            ReadyState::Failed(_) => String::from_str("Failed"),
        }
    }

    /// The message recorded for this state.
    pub fn message_value(&self) -> (r: String)
        ensures
            r@ == self.spec_message(),
    {
        match self {
            ReadyState::Failed(m) => m.clone(),
            _ => String::new(),
        }
    }
}

/// A set of conditions, at most one per type.
pub struct Conditions(pub Vec<Condition>);

/// Well-formed: the type tags are pairwise distinct.
pub open spec fn conditions_wf(cs: Seq<Condition>) -> bool {
    forall|i: int, j: int| 0 <= i < j < cs.len() ==> #[trigger] cs[i].type_@ != #[trigger] cs[j].type_@
}

/// The condition of the given type, if present (first match).
pub open spec fn spec_get(cs: Seq<Condition>, t: Seq<char>) -> Option<Condition>
    decreases cs.len(),
{
    if cs.len() == 0 {
        None
    } else if cs[0].type_@ == t {
        Some(cs[0])
    } else {
        spec_get(cs.drop_first(), t)
    }
}

/// The entry at the first index bearing the sought type is the one
/// `spec_get` finds.
proof fn lemma_get_first(cs: Seq<Condition>, t: Seq<char>, i: int)
    requires
        0 <= i < cs.len(),
        cs[i].type_@ == t,
        forall|k: int| 0 <= k < i ==> #[trigger] cs[k].type_@ != t,
    ensures
        spec_get(cs, t) == Some(cs[i]),
    decreases cs.len(),
{
    if i > 0 {
        assert(cs[0].type_@ != t);
        lemma_get_first(cs.drop_first(), t, i - 1);
    }
}

/// When no entry bears the sought type, `spec_get` finds nothing.
proof fn lemma_get_none(cs: Seq<Condition>, t: Seq<char>)
    requires
        forall|k: int| 0 <= k < cs.len() ==> #[trigger] cs[k].type_@ != t,
    ensures
        spec_get(cs, t) is None,
    decreases cs.len(),
{
    if cs.len() > 0 {
        assert forall|k: int| 0 <= k < cs.drop_first().len()
            implies #[trigger] cs.drop_first()[k].type_@ != t by {
            assert(cs[k + 1].type_@ != t);
        }
        lemma_get_none(cs.drop_first(), t);
    }
}

/// Two sequences that agree everywhere but at one index, where the type
/// tag is the same, yield the same lookups for every other type.
proof fn lemma_get_frame(cs1: Seq<Condition>, cs2: Seq<Condition>, j: int, t: Seq<char>)
    requires
        cs1.len() == cs2.len(),
        0 <= j < cs1.len(),
        forall|k: int| 0 <= k < cs1.len() && k != j ==> #[trigger] cs1[k] == cs2[k],
        cs1[j].type_@ == cs2[j].type_@,
        t != cs1[j].type_@,
    ensures
        spec_get(cs1, t) == spec_get(cs2, t),
    decreases cs1.len(),
{
    if cs1.len() > 0 {
        if j == 0 {
            assert(cs1.drop_first() =~= cs2.drop_first());
        } else {
            assert(cs1[0] == cs2[0]);
            if cs1[0].type_@ != t {
                lemma_get_frame(cs1.drop_first(), cs2.drop_first(), j - 1, t);
            }
        }
    }
}

/// Appending an entry of a fresh type does not change other lookups.
proof fn lemma_get_push(cs: Seq<Condition>, c: Condition, t: Seq<char>)
    requires
        t != c.type_@,
    ensures
        spec_get(cs.push(c), t) == spec_get(cs, t),
    decreases cs.len(),
{
    let pushed = cs.push(c);
    if cs.len() == 0 {
        assert(pushed[0] == c);
        assert(pushed.drop_first() =~= Seq::<Condition>::empty());
        assert(spec_get(pushed.drop_first(), t) is None);
        assert(spec_get(pushed, t) is None);
    } else {
        assert(pushed.drop_first() =~= cs.drop_first().push(c));
        assert(pushed[0] == cs[0]);
        if cs[0].type_@ == t {
            assert(spec_get(pushed, t) == Some(pushed[0]));
        } else {
            lemma_get_push(cs.drop_first(), c, t);
            assert(spec_get(pushed, t) == spec_get(pushed.drop_first(), t));
            assert(spec_get(pushed.drop_first(), t) == spec_get(cs.drop_first(), t));
        }
    }
}

impl Conditions {
    /// The conditions as a sequence.
    pub open spec fn view(&self) -> Seq<Condition> {
        self.0@
    }

    /// An empty condition set.
    pub fn new() -> (r: Self)
        ensures
            r@ == Seq::<Condition>::empty(),
            conditions_wf(r@),
    {
        Conditions(Vec::new())
    }

    /// The condition of the given type, or absent.
    pub fn get(&self, t: &str) -> (r: Option<&Condition>)
        ensures
            match r {
                Some(c) => spec_get(self@, t@) == Some(*c),
                None => spec_get(self@, t@) is None,
            },
    {
        let key = String::from_str(t);
        let n = self.0.len();
        let mut i: usize = 0;
        while i < n
            invariant
                n == self@.len(),
                i <= n,
                key@ == t@,
                forall|k: int| 0 <= k < i ==> #[trigger] self@[k].type_@ != t@,
            decreases n - i,
        {
            let c = &self.0[i];
            if c.type_ == key {
                proof {
                    lemma_get_first(self@, t@, i as int);
                }
                return Some(c);
            }
            i += 1;
        }
        proof {
            lemma_get_none(self@, t@);
        }
        None
    }

    /// Updates the condition of type `t` to the given state, observed at
    /// `now`: while the status value is unchanged only reason and message
    /// refresh and the transition time stays; when the status changes (or
    /// the condition is new) the transition time becomes `now`. Conditions
    /// of every other type are untouched.
    pub fn update(&mut self, t: &str, state: &ReadyState, now: u64)
        requires
            conditions_wf(old(self)@),
        ensures
            conditions_wf(final(self)@),
            spec_get(final(self)@, t@) matches Some(c) && c.type_@ == t@
                && c.status == state.spec_status()
                && c.reason@ == state.spec_reason()
                && c.message@ == state.spec_message()
                && c.last_transition_time == match spec_get(old(self)@, t@) {
                    Some(o) => if o.status == state.spec_status() {
                        o.last_transition_time
                    } else {
                        now
                    },
                    None => now,
                },
            forall|t2: Seq<char>| t2 != t@ ==> spec_get(final(self)@, t2) == spec_get(
                old(self)@,
                t2,
            ),
    {
        let key = String::from_str(t);
        let status = state.status_value();
        let reason = state.reason_value();
        let message = state.message_value();
        let n = self.0.len();
        let mut i: usize = 0;
        while i < n
            invariant
                n == self@.len(),
                i <= n,
                key@ == t@,
                self@ == old(self)@,
                conditions_wf(old(self)@),
                reason@ == state.spec_reason(),
                message@ == state.spec_message(),
                status == state.spec_status(),
                forall|k: int| 0 <= k < i ==> #[trigger] self@[k].type_@ != t@,
            decreases n - i,
        {
            let same_type = {
                let c = &self.0[i];
                c.type_ == key
            };
            if same_type {
                let transition = {
                    let c = &self.0[i];
                    if c.status == status {
                        c.last_transition_time
                    } else {
                        now
                    }
                };
                let ghost before = self@;
                // Rebuild the vector with entry `i` replaced.
                let mut rebuilt: Vec<Condition> = Vec::new();
                let mut k: usize = 0;
                while k < n
                    invariant
                        n == before.len(),
                        i < n,
                        self@ == before,
                        before == old(self)@,
                        conditions_wf(before),
                        k <= n,
                        key@ == t@,
                        reason@ == state.spec_reason(),
                        message@ == state.spec_message(),
                        status == state.spec_status(),
                        forall|k2: int| 0 <= k2 < i ==> #[trigger] before[k2].type_@ != t@,
                        before[i as int].type_@ == t@,
                        transition == (if before[i as int].status == status {
                            before[i as int].last_transition_time
                        } else {
                            now
                        }),
                        rebuilt@.len() == k,
                        forall|m: int| 0 <= m < k && m != i ==> #[trigger] rebuilt@[m] == before[m],
                        i < k ==> rebuilt@[i as int].type_@ == t@
                            && rebuilt@[i as int].status == status
                            && rebuilt@[i as int].reason@ == reason@
                            && rebuilt@[i as int].message@ == message@
                            && rebuilt@[i as int].last_transition_time == transition,
                    decreases n - k,
                {
                    if k == i {
                        rebuilt.push(Condition {
                            type_: key.clone(),
                            status,
                            reason: reason.clone(),
                            message: message.clone(),
                            last_transition_time: transition,
                        });
                    } else {
                        rebuilt.push(self.0[k].clone());
                    }
                    k += 1;
                }
                self.0 = rebuilt;
                proof {
                    assert(conditions_wf(before));
                    assert(before[i as int].type_@ == t@);
                    assert(self@[i as int].type_@ == t@);
                    assert forall|a: int, b: int| 0 <= a < b < self@.len()
                        implies #[trigger] self@[a].type_@ != #[trigger] self@[b].type_@ by {
                        assert(before[a].type_@ != before[b].type_@);
                    }
                    assert forall|k2: int| 0 <= k2 < i as int
                        implies #[trigger] self@[k2].type_@ != t@ by {
                        assert(self@[k2] == before[k2]);
                    }
                    lemma_get_first(self@, t@, i as int);
                    lemma_get_first(before, t@, i as int);
                    assert forall|t2: Seq<char>| t2 != t@
                        implies spec_get(self@, t2) == spec_get(before, t2) by {
                        lemma_get_frame(self@, before, i as int, t2);
                    }
                }
                return;
            }
            i += 1;
        }
        // Not present: append a fresh condition.
        let ghost before = self@;
        let fresh = Condition {
            type_: key,
            status,
            reason,
            message,
            last_transition_time: now,
        };
        self.0.push(fresh);
        proof {
            let added = self@.last();
            assert(added.type_@ == t@);
            assert forall|a: int, b: int| 0 <= a < b < self@.len()
                implies #[trigger] self@[a].type_@ != #[trigger] self@[b].type_@ by {
                if b < before.len() {
                    assert(before[a].type_@ != before[b].type_@);
                } else {
                    assert(before[a].type_@ != t@);
                }
            }
            lemma_get_first(self@, t@, before.len() as int);
            lemma_get_none(before, t@);
            assert forall|t2: Seq<char>| t2 != t@
                implies spec_get(self@, t2) == spec_get(before, t2) by {
                assert(self@ =~= before.push(added));
                lemma_get_push(before, added, t2);
            }
        }
    }
}

impl Clone for Conditions {
    fn clone(&self) -> (r: Self)
        ensures
            r@ == self@,
    {
        let n = self.0.len();
        let mut out: Vec<Condition> = Vec::new();
        let mut i: usize = 0;
        while i < n
            invariant
                n == self.0@.len(),
                i <= n,
                out@ == self.0@.subrange(0, i as int),
            decreases n - i,
        {
            out.push(self.0[i].clone());
            assert(out@ == self.0@.subrange(0, i as int + 1));
            i += 1;
        }
        assert(out@ =~= self.0@);
        Conditions(out)
    }
}

/// Returns the condition type under which the reconcile result is recorded.
pub fn condition_reconciled() -> (r: &'static str)
    ensures
        r@ == spec_condition_reconciled(),
{
    "Reconciled"
}

/// The reconcile condition type tag.
pub open spec fn spec_condition_reconciled() -> Seq<char> {
    "Reconciled"@
}

/// The status section this controller owns on the managed object.
pub struct KafkaAppStatus {
    pub conditions: Conditions,
    /// Generation of the object version that produced these conditions;
    /// readers compare it with the current generation to detect staleness.
    pub observed_generation: u64,
}

impl KafkaAppStatus {
    /// Returns the name of the readiness condition this section reports.
    pub fn ready_name() -> (r: &'static str)
        ensures
            r@ == "KafkaReady"@,
    {
        "KafkaReady"
    }

    /// Replaces the conditions and records the generation they were
    /// computed from.
    pub fn update_status(&mut self, conditions: Conditions, observed_generation: u64)
        ensures
            final(self).conditions == conditions,
            final(self).observed_generation == observed_generation,
    {
        self.conditions = conditions;
        self.observed_generation = observed_generation;
    }
}

impl Clone for KafkaAppStatus {
    fn clone(&self) -> (r: Self)
        ensures
            r.conditions@ == self.conditions@,
            r.observed_generation == self.observed_generation,
    {
        KafkaAppStatus {
            conditions: self.conditions.clone(),
            observed_generation: self.observed_generation,
        }
    }
}

} // verus!
