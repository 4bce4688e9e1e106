//! The event dispatcher and work queue: notifications from independent
//! event sources collapse into one pending entry per object key,
//! delivery is single-flight (never while a reconcile for the controller
//! is running), and retries are scheduled no earlier than the requested
//! delay, with an increasing default backoff that resets on success.
use vstd::prelude::*;
use crate::topic::Topic;

verus! {

/// A notification from one of the event sources.
pub enum Event {
    /// A change on a managed object: which object, and the path of the
    /// change inside it.
    Application { instance: String, application: String, path: String },
    /// Any other notification; irrelevant to this controller.
    Other,
}

/// True for the events this controller acts on: creation of a managed
/// object (the whole-object path) and metadata changes (the finalizer
/// lives there).
pub open spec fn spec_is_relevant(e: Event) -> bool {
    e matches Event::Application { path, .. } && (path@ == "."@ || path@ == ".metadata"@)
}

/// Extracts the reconcile key from an event, when the event is relevant.
pub fn is_relevant(event: &Event) -> (r: Option<String>)
    ensures
        match *event {
            Event::Application { ref application, ref path, .. } => {
                if path@ == "."@ || path@ == ".metadata"@ {
                    r matches Some(k) && k == *application
                } else {
                    r is None
                }
            },
            Event::Other => r is None,
        },
{
    let dot = String::from_str(".");
    let metadata = String::from_str(".metadata");
    match event {
        Event::Application { application, path, .. } => {
            if *path == dot || *path == metadata {
                Some(application.clone())
            } else {
                None
            }
        },
        Event::Other => None,
    }
}

/// One pending unit of work: a key, the earliest time it may run, and
/// how many times it has been retried without success.
pub struct QueueEntry {
    pub key: String,
    pub not_before: u64,
    pub attempts: u32,
}

/// The work queue: pending entries (at most one per key) and the key of
/// the reconcile that is in flight, if one is.
pub struct WorkQueue {
    pub entries: Vec<QueueEntry>,
    pub in_flight: Option<QueueEntry>,
    /// Base of the default backoff, in seconds.
    pub base_delay: u64,
}

/// Keys are pairwise distinct: notifications for one key coalesce.
pub open spec fn spec_keys_unique(es: Seq<QueueEntry>) -> bool {
    forall|i: int, j: int| 0 <= i < j < es.len() ==> #[trigger] es[i].key@ != #[trigger] es[j].key@
}

/// Whether some pending entry bears the key.
pub open spec fn spec_has_key(es: Seq<QueueEntry>, k: Seq<char>) -> bool {
    exists|i: int| 0 <= i < es.len() && #[trigger] es[i].key@ == k
}

/// The earlier of two times.
pub open spec fn earlier(a: u64, b: u64) -> u64 {
    if a <= b {
        a
    } else {
        b
    }
}

/// The larger of two attempt counts.
pub open spec fn more_attempts(a: u32, b: u32) -> u32 {
    if a >= b {
        a
    } else {
        b
    }
}

/// The default backoff for a retry that names no delay: the base delay
/// grown with every fruitless attempt (saturating).
pub open spec fn spec_backoff(base: u64, attempts: u32) -> u64 {
    if base as int * (attempts as int + 1) > u64::MAX as int {
        u64::MAX
    } else {
        (base as int * (attempts as int + 1)) as u64
    }
}

/// One more fruitless attempt, the count saturating.
pub open spec fn spec_next_attempts(a: u32) -> u32 {
    if a == u32::MAX {
        u32::MAX
    } else {
        (a + 1) as u32
    }
}

/// `now + delay`, stopping at the clock's ceiling.
pub open spec fn spec_due(now: u64, delay: u64) -> u64 {
    if delay > u64::MAX - now {
        u64::MAX
    } else {
        (now + delay) as u64
    }
}

impl WorkQueue {
    /// Well-formed: at most one pending entry per key.
    pub open spec fn wf(&self) -> bool {
        spec_keys_unique(self.entries@)
    }

    /// An empty queue with nothing in flight.
    pub fn new(base_delay: u64) -> (r: Self)
        ensures
            r.wf(),
            r.entries@.len() == 0,
            r.in_flight is None,
            r.base_delay == base_delay,
    {
        WorkQueue { entries: Vec::new(), in_flight: None, base_delay }
    }

    /// Coalescing insert: a pending entry for the key is pulled to the
    /// earlier of the two times and keeps the larger attempt count; a
    /// fresh key is appended.
    fn upsert_entry(&mut self, key: String, not_before: u64, attempts: u32)
        requires
            old(self).wf(),
        ensures
            final(self).wf(),
            final(self).in_flight == old(self).in_flight,
            final(self).base_delay == old(self).base_delay,
            spec_has_key(final(self).entries@, key@),
            ({
                let pre = old(self).entries@;
                let post = final(self).entries@;
                if spec_has_key(pre, key@) {
                    exists|i: int|
                        0 <= i < pre.len() && #[trigger] pre[i].key@ == key@ && post.len()
                            == pre.len() && post[i].key == pre[i].key && post[i].not_before
                            == earlier(pre[i].not_before, not_before) && post[i].attempts
                            == more_attempts(pre[i].attempts, attempts) && (forall|j: int|
                            0 <= j < pre.len() && j != i ==> #[trigger] post[j] == pre[j])
                } else {
                    post.len() == pre.len() + 1 && (forall|j: int|
                        0 <= j < pre.len() ==> #[trigger] post[j] == pre[j]) && post.last().key
                        == key && post.last().not_before == not_before && post.last().attempts
                        == attempts
                }
            }),
    {
        let n = self.entries.len();
        let mut i: usize = 0;
        while i < n
            invariant
                n == self.entries@.len(),
                i <= n,
                self == old(self),
                old(self).wf(),
                forall|k: int| 0 <= k < i ==> #[trigger] self.entries@[k].key@ != key@,
            decreases n - i,
        {
            let hit = {
                let e = &self.entries[i];
                e.key == key
            };
            if hit {
                let coalesced = {
                    let e = &self.entries[i];
                    QueueEntry {
                        key: e.key.clone(),
                        not_before: if e.not_before <= not_before {
                            e.not_before
                        } else {
                            not_before
                        },
                        attempts: if e.attempts >= attempts {
                            e.attempts
                        } else {
                            attempts
                        },
                    }
                };
                let ghost before = self.entries@;
                let mut rebuilt: Vec<QueueEntry> = Vec::new();
                let mut k: usize = 0;
                while k < n
                    invariant
                        n == before.len(),
                        i < n,
                        k <= n,
                        self.entries@ == before,
                        rebuilt@.len() == k,
                        coalesced.key == before[i as int].key,
                        coalesced.not_before == (if before[i as int].not_before <= not_before {
                            before[i as int].not_before
                        } else {
                            not_before
                        }),
                        coalesced.attempts == (if before[i as int].attempts >= attempts {
                            before[i as int].attempts
                        } else {
                            attempts
                        }),
                        forall|m: int| 0 <= m < k && m != i ==> #[trigger] rebuilt@[m] == before[m],
                        i < k ==> rebuilt@[i as int] == coalesced,
                    decreases n - k,
                {
                    if k == i {
                        rebuilt.push(
                            QueueEntry {
                                key: coalesced.key.clone(),
                                not_before: coalesced.not_before,
                                attempts: coalesced.attempts,
                            },
                        );
                    } else {
                        let e = &self.entries[k];
                        rebuilt.push(
                            QueueEntry {
                                key: e.key.clone(),
                                not_before: e.not_before,
                                attempts: e.attempts,
                            },
                        );
                    }
                    k += 1;
                }
                self.entries = rebuilt;
                proof {
                    assert(self.entries@[i as int].key@ == key@);
                    assert forall|a: int, b: int| 0 <= a < b < self.entries@.len()
                        implies #[trigger] self.entries@[a].key@
                        != #[trigger] self.entries@[b].key@ by {
                        assert(before[a].key@ != before[b].key@);
                    }
                }
                return;
            }
            i += 1;
        }
        let ghost before = self.entries@;
        self.entries.push(QueueEntry { key, not_before, attempts });
        proof {
            assert(self.entries@.last().key@ == key@);
            assert forall|a: int, b: int| 0 <= a < b < self.entries@.len()
                implies #[trigger] self.entries@[a].key@ != #[trigger] self.entries@[b].key@ by {
                if b < before.len() {
                    assert(before[a].key@ != before[b].key@);
                } else {
                    assert(before[a].key@ != key@);
                }
            }
        }
    }

    /// An event source reports a change on the key: schedule it to run
    /// now. A key already pending is not duplicated (and keeps any
    /// earlier due time); a key in flight simply gains a pending entry,
    /// which cannot be dispatched before the current run completes.
    pub fn notify(&mut self, key: String, now: u64)
        requires
            old(self).wf(),
        ensures
            final(self).wf(),
            final(self).in_flight == old(self).in_flight,
            final(self).base_delay == old(self).base_delay,
            spec_has_key(final(self).entries@, key@),
            ({
                let pre = old(self).entries@;
                let post = final(self).entries@;
                !spec_has_key(pre, key@) ==> post.len() == pre.len() + 1
                    && post.last().not_before <= now && post.last().attempts == 0
            }),
    {
        self.upsert_entry(key, now, 0);
    }

    /// Takes the next due key, if any — and never while a reconcile is
    /// in flight: at most one runs at a time. The taken entry leaves the
    /// pending list and becomes the in-flight one.
    pub fn poll(&mut self, now: u64) -> (r: Option<String>)
        requires
            old(self).wf(),
        ensures
            final(self).wf(),
            final(self).base_delay == old(self).base_delay,
            old(self).in_flight is Some ==> r is None && *final(self) == *old(self),
            ({
                let pre = old(self).entries@;
                let post = final(self).entries@;
                r matches Some(k) ==> old(self).in_flight is None && (exists|i: int|
                    0 <= i < pre.len() && #[trigger] pre[i].key@ == k@ && pre[i].not_before <= now
                        && post == pre.remove(i) && final(self).in_flight == Some(pre[i]))
            }),
            ({
                let pre = old(self).entries@;
                r is None && old(self).in_flight is None ==> *final(self) == *old(self) && (forall|
                    i: int,
                | 0 <= i < pre.len() ==> #[trigger] pre[i].not_before > now)
            }),
    {
        if self.in_flight.is_some() {
            return None;
        }
        let n = self.entries.len();
        let mut i: usize = 0;
        while i < n
            invariant
                n == self.entries@.len(),
                i <= n,
                self == old(self),
                old(self).wf(),
                old(self).in_flight is None,
                forall|k: int| 0 <= k < i ==> #[trigger] self.entries@[k].not_before > now,
            decreases n - i,
        {
            let due = {
                let e = &self.entries[i];
                e.not_before <= now
            };
            if due {
                let ghost before = self.entries@;
                let e = self.entries.remove(i);
                let k = e.key.clone();
                self.in_flight = Some(e);
                proof {
                    let pre = old(self).entries@;
                    assert(pre[i as int].key@ == k@);
                    assert(pre[i as int].not_before <= now);
                    assert(self.entries@ == pre.remove(i as int));
                    assert(self.in_flight == Some(pre[i as int]));
                    assert forall|a: int, b: int| 0 <= a < b < self.entries@.len()
                        implies #[trigger] self.entries@[a].key@
                        != #[trigger] self.entries@[b].key@ by {
                        let a2 = if a < i as int {
                            a
                        } else {
                            a + 1
                        };
                        let b2 = if b < i as int {
                            b
                        } else {
                            b + 1
                        };
                        assert(before[a2].key@ != before[b2].key@);
                    }
                }
                return Some(k);
            }
            i += 1;
        }
        None
    }

    /// Ends the in-flight reconcile. With no retry asked, the run
    /// succeeded: the attempt count is forgotten (any entry notified
    /// meanwhile stays pending and runs next). A retry reschedules the
    /// key after the given delay, or after the growing default backoff
    /// when none is given, counting the attempt.
    pub fn complete(&mut self, retry: Option<Option<u64>>, now: u64)
        requires
            old(self).wf(),
            old(self).in_flight is Some,
        ensures
            final(self).wf(),
            final(self).in_flight is None,
            final(self).base_delay == old(self).base_delay,
            retry is None ==> final(self).entries@ == old(self).entries@,
            ({
                let pre = old(self).entries@;
                let post = final(self).entries@;
                let flight = old(self).in_flight->Some_0;
                retry matches Some(d) ==> ({
                    let delay = match d {
                        Some(given) => given,
                        None => spec_backoff(old(self).base_delay, flight.attempts),
                    };
                    let due = spec_due(now, delay);
                    spec_has_key(post, flight.key@) && (!spec_has_key(pre, flight.key@)
                        ==> post.len() == pre.len() + 1 && post.last().not_before == due
                        && post.last().attempts == spec_next_attempts(flight.attempts))
                })
            }),
    {
        let flight = match self.in_flight.take() {
            Some(e) => e,
            None => vstd::pervasive::unreached(),
        };
        match retry {
            None => {},
            Some(d) => {
                let delay = match d {
                    Some(given) => given,
                    None => self.backoff_delay(flight.attempts),
                };
                let due = if delay > u64::MAX - now {
                    u64::MAX
                } else {
                    now + delay
                };
                let next_attempts = if flight.attempts == u32::MAX {
                    u32::MAX
                } else {
                    flight.attempts + 1
                };
                self.upsert_entry(flight.key, due, next_attempts);
            },
        }
    }

    /// The default backoff for the given attempt count.
    fn backoff_delay(&self, attempts: u32) -> (r: u64)
        ensures
            r == spec_backoff(self.base_delay, attempts),
    {
        let factor = attempts as u64 + 1;
        match self.base_delay.checked_mul(factor) {
            Some(d) => d,
            None => u64::MAX,
        }
    }
}

/// Feeds one domain event into the queue: relevant events schedule
/// their key, everything else is discarded.
pub fn dispatch_event(queue: &mut WorkQueue, event: &Event, now: u64)
    requires
        old(queue).wf(),
    ensures
        final(queue).wf(),
        final(queue).in_flight == old(queue).in_flight,
        spec_is_relevant(*event) ==> (event matches Event::Application { application, .. }
            && spec_has_key(final(queue).entries@, application@)),
        !spec_is_relevant(*event) ==> *final(queue) == *old(queue),
{
    match is_relevant(event) {
        Some(key) => queue.notify(key, now),
        None => {},
    }
}

/// The reconcile key a watched topic points at: the owning managed
/// object named in the topic's annotation, if it carries one.
pub fn topic_event_key(topic: &Topic) -> (r: Option<String>)
    ensures
        match topic.app_annotation {
            Some(ref a) => r matches Some(k) && k == *a,
            None => r is None,
        },
{
    match &topic.app_annotation {
        Some(a) => Some(a.clone()),
        None => None,
    }
}

/// Feeds one watch event on a topic into the queue, keyed by the owning
/// object.
pub fn dispatch_topic_event(queue: &mut WorkQueue, topic: &Topic, now: u64)
    requires
        old(queue).wf(),
    ensures
        final(queue).wf(),
        final(queue).in_flight == old(queue).in_flight,
        topic.app_annotation matches Some(a) ==> spec_has_key(final(queue).entries@, a@),
        topic.app_annotation is None ==> *final(queue) == *old(queue),
{
    match topic_event_key(topic) {
        Some(key) => queue.notify(key, now),
        None => {},
    }
}

} // verus!
