//! The managed domain object ("Application") as the controller sees it:
//! identity, generation, finalizers, deletion marker, and the status
//! section owned by this controller.
use vstd::prelude::*;
use crate::conditions::KafkaAppStatus;

verus! {

/// Returns the finalizer marker this controller owns on managed objects.
pub fn finalizer() -> (r: &'static str)
    ensures
        r@ == spec_finalizer(),
{
    "kafka"
}

/// The finalizer marker as a character sequence.
pub open spec fn spec_finalizer() -> Seq<char> {
    "kafka"@
}

/// Object metadata: the fields the reconciliation logic reads and writes.
pub struct Metadata {
    /// Unique identity of the managed object.
    pub name: String,
    /// Monotonic counter incremented on every spec change.
    pub generation: u64,
    /// Present when deletion of the object has been requested.
    pub deletion_timestamp: Option<u64>,
    /// Markers blocking storage-level deletion until cleanup is done.
    pub finalizers: Vec<String>,
}

/// The managed object: metadata plus the status section this controller owns.
pub struct Application {
    pub metadata: Metadata,
    pub status: Option<KafkaAppStatus>,
}

/// True when the controller's finalizer is among the object's finalizers.
pub open spec fn spec_has_finalizer(m: Metadata) -> bool {
    exists|i: int| 0 <= i < m.finalizers@.len() && #[trigger] m.finalizers@[i]@ == spec_finalizer()
}

/// True when deletion of the object has been requested.
pub open spec fn spec_deleted(m: Metadata) -> bool {
    m.deletion_timestamp is Some
}

/// Metadata agreement: same identity, generation, deletion marker and
/// finalizer list. `Vec` values with equal contents need not be spec-equal,
/// so cloned objects are related by this predicate instead.
pub open spec fn meta_eq(a: Metadata, b: Metadata) -> bool {
    &&& a.name == b.name
    &&& a.generation == b.generation
    &&& a.deletion_timestamp == b.deletion_timestamp
    &&& a.finalizers@ == b.finalizers@
}

/// Status section agreement, content-wise.
pub open spec fn status_eq(a: Option<KafkaAppStatus>, b: Option<KafkaAppStatus>) -> bool {
    match (a, b) {
        (Option::None, Option::None) => true,
        (Option::Some(x), Option::Some(y)) => x.conditions@ == y.conditions@
            && x.observed_generation == y.observed_generation,
        _ => false,
    }
}

/// Managed-object agreement, content-wise.
pub open spec fn app_eq(a: Application, b: Application) -> bool {
    meta_eq(a.metadata, b.metadata) && status_eq(a.status, b.status)
}

/// The finalizer list with every occurrence of this controller's marker
/// removed, other markers kept in order.
pub open spec fn spec_remove_finalizer(fs: Seq<String>) -> Seq<String> {
    fs.filter(|f: String| f@ != spec_finalizer())
}

/// One step of `spec_remove_finalizer` over a push.
proof fn lemma_remove_finalizer_push(fs: Seq<String>, x: String)
    ensures
        spec_remove_finalizer(fs.push(x)) == if x@ != spec_finalizer() {
            spec_remove_finalizer(fs).push(x)
        } else {
            spec_remove_finalizer(fs)
        },
{
    broadcast use vstd::prelude::Seq::lemma_filter_push;

}

impl Metadata {
    /// Whether the controller's finalizer is present.
    pub fn has_finalizer(&self) -> (r: bool)
        ensures
            r == spec_has_finalizer(*self),
    {
        let marker = String::from_str(finalizer());
        let n = self.finalizers.len();
        let mut i: usize = 0;
        while i < n
            invariant
                n == self.finalizers@.len(),
                i <= n,
                marker@ == spec_finalizer(),
                forall|k: int| 0 <= k < i ==> #[trigger] self.finalizers@[k]@ != spec_finalizer(),
            decreases n - i,
        {
            if self.finalizers[i] == marker {
                return true;
            }
            i += 1;
        }
        false
    }

    /// Adds the controller's finalizer when it is absent.
    /// Returns true when the object was changed (the caller must persist it
    /// and observe the write before creating any external resource).
    pub fn ensure_finalizer(&mut self) -> (added: bool)
        ensures
            added == !spec_has_finalizer(*old(self)),
            spec_has_finalizer(*final(self)),
            final(self).name == old(self).name,
            final(self).generation == old(self).generation,
            final(self).deletion_timestamp == old(self).deletion_timestamp,
            !added ==> *final(self) == *old(self),
            added ==> final(self).finalizers@.len() == old(self).finalizers@.len() + 1
                && (forall|k: int| 0 <= k < old(self).finalizers@.len()
                    ==> final(self).finalizers@[k] == old(self).finalizers@[k])
                && final(self).finalizers@.last()@ == spec_finalizer(),
    {
        if self.has_finalizer() {
            false
        } else {
            let marker = String::from_str(finalizer());
            let ghost before = self.finalizers@;
            self.finalizers.push(marker);
            assert(self.finalizers@[before.len() as int]@ == spec_finalizer());
            true
        }
    }

    /// Removes every occurrence of the controller's finalizer, keeping the
    /// other markers in their order.
    pub fn remove_finalizer(&mut self)
        ensures
            !spec_has_finalizer(*final(self)),
            final(self).finalizers@ == spec_remove_finalizer(old(self).finalizers@),
            final(self).name == old(self).name,
            final(self).generation == old(self).generation,
            final(self).deletion_timestamp == old(self).deletion_timestamp,
    {
        broadcast use vstd::seq_lib::group_filter_ensures;

        let marker = String::from_str(finalizer());
        let n = self.finalizers.len();
        let mut kept: Vec<String> = Vec::new();
        let mut i: usize = 0;
        while i < n
            invariant
                n == old(self).finalizers@.len(),
                i <= n,
                marker@ == spec_finalizer(),
                self.finalizers@ == old(self).finalizers@,
                kept@ == spec_remove_finalizer(old(self).finalizers@.subrange(0, i as int)),
            decreases n - i,
        {
            let ghost prefix = old(self).finalizers@.subrange(0, i as int);
            let ghost x = old(self).finalizers@[i as int];
            proof {
                assert(old(self).finalizers@.subrange(0, i as int + 1) =~= prefix.push(x));
                lemma_remove_finalizer_push(prefix, x);
            }
            if !(self.finalizers[i] == marker) {
                let f = self.finalizers[i].clone();
                kept.push(f);
            }
            i += 1;
        }
        assert(old(self).finalizers@.subrange(0, n as int) =~= old(self).finalizers@);
        self.finalizers = kept;
        assert forall|k: int| 0 <= k < self.finalizers@.len()
            implies #[trigger] self.finalizers@[k]@ != spec_finalizer() by {
            assert(self.finalizers@[k] == spec_remove_finalizer(old(self).finalizers@)[k]);
        }
    }
}

impl Application {
    /// Writes the status section this controller owns: the given
    /// conditions, recorded against the generation they were computed
    /// from. Metadata is untouched.
    pub fn finish_ready(&mut self, conditions: crate::conditions::Conditions, observed_generation: u64)
        ensures
            final(self).metadata == old(self).metadata,
            final(self).status matches Some(s) && s.conditions@ == conditions@
                && s.observed_generation == observed_generation,
    {
        self.status = Some(KafkaAppStatus { conditions, observed_generation });
    }
}

impl Clone for Metadata {
    fn clone(&self) -> (r: Self)
        ensures
            meta_eq(r, *self),
    {
        let mut finalizers: Vec<String> = Vec::new();
        let n = self.finalizers.len();
        let mut i: usize = 0;
        while i < n
            invariant
                n == self.finalizers@.len(),
                i <= n,
                finalizers@ == self.finalizers@.subrange(0, i as int),
            decreases n - i,
        {
            finalizers.push(self.finalizers[i].clone());
            assert(finalizers@ == self.finalizers@.subrange(0, i as int + 1));
            i += 1;
        }
        assert(finalizers@ == self.finalizers@);
        let r = Metadata {
            name: self.name.clone(),
            generation: self.generation,
            deletion_timestamp: if let Some(t) = self.deletion_timestamp {
                Some(t)
            } else {
                None
            },
            finalizers,
        };
        r
    }
}

impl Clone for Application {
    fn clone(&self) -> (r: Self)
        ensures
            app_eq(r, *self),
    {
        Application {
            metadata: self.metadata.clone(),
            status: match &self.status {
                Some(s) => Some(s.clone()),
                None => None,
            },
        }
    }
}

} // verus!
