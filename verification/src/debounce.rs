//! Coalesces rapid-fire events on the same entity into a single notification.
//!
//! The map keeps one pending update per key. Every upsert hands out a ticket
//! and a delay; the caller waits that long and then claims the entry with
//! its ticket. A newer upsert on the same key replaces the ticket, so the
//! earlier wait claims nothing: only the last timer of a burst delivers.

use vstd::prelude::*;

use crate::event::{
    issue_snapshot, lemma_event_view_ops, opt_str, view_changes, view_promote, view_with_changes,
    Event, EventView,
};
use crate::text::{contains_str, str_eq, string_views};

verus! {

broadcast use vstd::string::group_string_axioms;

/// A pending notification waiting for the debounce window to expire.
#[derive(Debug)]
pub struct PendingUpdate {
    /// The latest event state (replaced on every new update).
    pub event: Event,
    /// Email to DM if any update in the window changed the assignee.
    pub dm_email: Option<String>,
    /// Ticket of the upsert that last touched this entry.
    pub ticket: u64,
    /// When (in milliseconds) the first event in this debounce window arrived.
    pub first_received_ms: u64,
}

/// The mathematical value of a [`PendingUpdate`].
pub struct PendingView {
    pub event: EventView,
    pub dm_email: Option<Seq<char>>,
    pub ticket: u64,
    pub first_received_ms: u64,
}

impl View for PendingUpdate {
    type V = PendingView;

    open spec fn view(&self) -> PendingView {
        PendingView {
            event: self.event@,
            dm_email: opt_str(self.dm_email),
            ticket: self.ticket,
            first_received_ms: self.first_received_ms,
        }
    }
}

/// `all` followed by each change of `new` that is not already there,
/// in order, each only once.
pub open spec fn merge_changes(all: Seq<Seq<char>>, new: Seq<Seq<char>>) -> Seq<Seq<char>>
    decreases new.len(),
{
    if new.len() == 0 {
        all
    } else {
        let merged = merge_changes(all, new.drop_last());
        if merged.contains(new.last()) {
            merged
        } else {
            merged.push(new.last())
        }
    }
}

/// The event that a pending `existing` and a newer `event` merge into: the
/// newer state (still a creation if the pending one was), with the changes
/// of both.
pub open spec fn merged_event(existing: EventView, event: EventView) -> EventView {
    let base = if existing is IssueCreated {
        view_promote(event)
    } else {
        event
    };
    view_with_changes(base, merge_changes(view_changes(existing), view_changes(event)))
}

/// How long to wait: `delay_ms`, but never past `max_wait_ms` after the
/// first event, and at least 1 ms.
pub open spec fn spec_delay(delay_ms: u64, max_wait_ms: u64, first_ms: u64, now_ms: u64) -> u64 {
    let elapsed = if now_ms >= first_ms {
        (now_ms - first_ms) as u64
    } else {
        0
    };
    let remaining = if max_wait_ms >= elapsed {
        (max_wait_ms - elapsed) as u64
    } else {
        0
    };
    let d = if delay_ms <= remaining {
        delay_ms
    } else {
        remaining
    };
    if d >= 1 {
        d
    } else {
        1
    }
}

/// Computes the wait of an upsert.
pub fn actual_delay(delay_ms: u64, max_wait_ms: u64, first_ms: u64, now_ms: u64) -> (d: u64)
    ensures
        d == spec_delay(delay_ms, max_wait_ms, first_ms, now_ms),
{
    let elapsed = now_ms.saturating_sub(first_ms);
    let remaining = max_wait_ms.saturating_sub(elapsed);
    let d = if delay_ms <= remaining {
        delay_ms
    } else {
        remaining
    };
    if d >= 1 {
        d
    } else {
        1
    }
}

/// The pending entry that an upsert leaves: merged with `existing` when
/// there was one.
pub open spec fn spec_upserted(
    existing: Option<PendingView>,
    event: EventView,
    dm_email: Option<Seq<char>>,
    ticket: u64,
    now_ms: u64,
) -> PendingView {
    match existing {
        Some(old) => PendingView {
            event: merged_event(old.event, event),
            dm_email: match dm_email {
                Some(d) => Some(d),
                None => old.dm_email,
            },
            ticket,
            first_received_ms: old.first_received_ms,
        },
        None => PendingView { event, dm_email, ticket, first_received_ms: now_ms },
    }
}

/// Merges two change lists.
pub fn merge_change_lists(all: &[String], new: &[String]) -> (v: Vec<String>)
    ensures
        string_views(v@) == merge_changes(string_views(all@), string_views(new@)),
{
    let mut v: Vec<String> = Vec::new();
    let mut i: usize = 0;
    while i < all.len()
        invariant
            i <= all@.len(),
            string_views(v@) == string_views(all@).take(i as int),
        decreases all@.len() - i,
    {
        let ghost before = string_views(v@);
        let c = all[i].clone();
        v.push(c);
        proof {
            assert(string_views(v@) =~= before.push(all@[i as int]@));
            assert(string_views(v@) =~= string_views(all@).take(i + 1));
        }
        i = i + 1;
    }
    proof {
        assert(string_views(all@).take(all@.len() as int) =~= string_views(all@));
        assert(string_views(new@).take(0) =~= Seq::<Seq<char>>::empty());
    }
    let mut j: usize = 0;
    while j < new.len()
        invariant
            j <= new@.len(),
            string_views(v@) == merge_changes(string_views(all@), string_views(new@).take(j as int)),
        decreases new@.len() - j,
    {
        proof {
            assert(string_views(new@).take(j + 1).drop_last() =~= string_views(new@).take(
                j as int,
            ));
            assert(string_views(new@).take(j + 1).last() == new@[j as int]@);
        }
        if !contains_str(v.as_slice(), new[j].as_str()) {
            let ghost before = string_views(v@);
            v.push(new[j].clone());
            proof {
                assert(string_views(v@) =~= before.push(new@[j as int]@));
            }
        }
        j = j + 1;
    }
    proof {
        assert(string_views(new@).take(new@.len() as int) =~= string_views(new@));
    }
    v
}

/// Merges a newer event into a pending one.
pub fn merge_events(existing: &Event, event: Event) -> (e: Event)
    ensures
        e@ == merged_event(existing@, event@),
{
    let all = merge_change_lists(existing.changes(), event.changes());
    let ghost ev = event;
    let mut merged = if existing.is_issue_created() {
        event.promote_to_created()
    } else {
        event
    };
    let ghost base = merged;
    merged.set_changes(all);
    proof {
        lemma_event_view_ops(*existing, all);
        lemma_event_view_ops(ev, all);
        lemma_event_view_ops(ev.spec_promote(), all);
        lemma_event_view_ops(base, all);
        assert(string_views(existing.spec_changes()) == crate::event::str_seq(
            existing.spec_changes(),
        ));
    }
    merged
}

/// Keyed map of pending debounced updates.
#[derive(Debug)]
pub struct DebounceMap {
    entries: Vec<(String, PendingUpdate)>,
    next_ticket: u64,
}

/// The map that a list of entries with distinct keys stands for.
pub open spec fn entries_view(entries: Seq<(String, PendingUpdate)>) -> Map<Seq<char>, PendingView>
    decreases entries.len(),
{
    if entries.len() == 0 {
        Map::empty()
    } else {
        entries_view(entries.drop_last()).insert(entries.last().0@, entries.last().1@)
    }
}

/// No two entries share a key.
pub open spec fn keys_distinct(entries: Seq<(String, PendingUpdate)>) -> bool {
    forall|i: int, j: int|
        0 <= i < entries.len() && 0 <= j < entries.len() && i != j ==> entries[i].0@
            != entries[j].0@
}

proof fn lemma_entries_view_index(entries: Seq<(String, PendingUpdate)>, j: int)
    requires
        keys_distinct(entries),
        0 <= j < entries.len(),
    ensures
        entries_view(entries).contains_key(entries[j].0@),
        entries_view(entries)[entries[j].0@] == entries[j].1@,
    decreases entries.len(),
{
    if j < entries.len() - 1 {
        assert(keys_distinct(entries.drop_last()));
        lemma_entries_view_index(entries.drop_last(), j);
    }
}

proof fn lemma_entries_view_absent(entries: Seq<(String, PendingUpdate)>, key: Seq<char>)
    requires
        forall|t: int| 0 <= t < entries.len() ==> entries[t].0@ != key,
    ensures
        !entries_view(entries).contains_key(key),
    decreases entries.len(),
{
    if entries.len() > 0 {
        lemma_entries_view_absent(entries.drop_last(), key);
    }
}

proof fn lemma_entries_view_keys(entries: Seq<(String, PendingUpdate)>, key: Seq<char>)
    ensures
        entries_view(entries).contains_key(key) <==> exists|t: int|
            0 <= t < entries.len() && entries[t].0@ == key,
    decreases entries.len(),
{
    if entries.len() > 0 {
        lemma_entries_view_keys(entries.drop_last(), key);
        if entries_view(entries).contains_key(key) && entries.last().0@ != key {
            let t = choose|t: int| 0 <= t < entries.len() - 1 && entries.drop_last()[t].0@ == key;
            assert(entries[t].0@ == key);
        }
        if exists|t: int| 0 <= t < entries.len() && entries[t].0@ == key {
            let t = choose|t: int| 0 <= t < entries.len() && entries[t].0@ == key;
            if t < entries.len() - 1 {
                assert(entries.drop_last()[t].0@ == key);
            }
        }
    } else {
        lemma_entries_view_absent(entries, key);
    }
}

/// Removing entry `j` removes its key from the map.
proof fn lemma_entries_view_remove(entries: Seq<(String, PendingUpdate)>, j: int)
    requires
        keys_distinct(entries),
        0 <= j < entries.len(),
    ensures
        keys_distinct(entries.remove(j)),
        entries_view(entries.remove(j)) == entries_view(entries).remove(entries[j].0@),
{
    let key = entries[j].0@;
    let rest = entries.remove(j);
    assert(keys_distinct(rest)) by {
        assert forall|a: int, b: int|
            0 <= a < rest.len() && 0 <= b < rest.len() && a != b implies rest[a].0@
            != rest[b].0@ by {
            let a2 = if a < j {
                a
            } else {
                a + 1
            };
            let b2 = if b < j {
                b
            } else {
                b + 1
            };
            assert(rest[a] == entries[a2]);
            assert(rest[b] == entries[b2]);
        }
    }
    assert forall|k: Seq<char>| #![auto]
        entries_view(rest).contains_key(k) == entries_view(entries).remove(key).contains_key(k) by {
        lemma_entries_view_keys(rest, k);
        lemma_entries_view_keys(entries, k);
        if exists|t: int| 0 <= t < entries.len() && entries[t].0@ == k {
            let t = choose|t: int| 0 <= t < entries.len() && entries[t].0@ == k;
            if k != key {
                let t2 = if t < j {
                    t
                } else {
                    t - 1
                };
                assert(rest[t2].0@ == k);
            }
        }
        if exists|t: int| 0 <= t < rest.len() && rest[t].0@ == k {
            let t = choose|t: int| 0 <= t < rest.len() && rest[t].0@ == k;
            let t2 = if t < j {
                t
            } else {
                t + 1
            };
            assert(entries[t2].0@ == k);
            assert(k != key);
        }
    }
    assert forall|k: Seq<char>| #[trigger]
        entries_view(rest).contains_key(k) implies entries_view(rest)[k] == entries_view(
        entries,
    )[k] by {
        lemma_entries_view_keys(rest, k);
        let t = choose|t: int| 0 <= t < rest.len() && rest[t].0@ == k;
        let t2 = if t < j {
            t
        } else {
            t + 1
        };
        assert(rest[t] == entries[t2]);
        lemma_entries_view_index(rest, t);
        lemma_entries_view_index(entries, t2);
    }
    assert(entries_view(rest) =~= entries_view(entries).remove(key));
}

impl View for DebounceMap {
    type V = Map<Seq<char>, PendingView>;

    closed spec fn view(&self) -> Map<Seq<char>, PendingView> {
        entries_view(self.entries@)
    }
}

impl DebounceMap {
    /// The well-formedness of the map: no key occurs twice.
    pub closed spec fn wf(&self) -> bool {
        keys_distinct(self.entries@)
    }

    /// The ticket that the next upsert hands out.
    pub closed spec fn next_ticket(&self) -> u64 {
        self.next_ticket
    }

    /// Every pending entry holds a ticket handed out before the next one.
    pub closed spec fn tickets_issued(&self) -> bool {
        forall|k: Seq<char>| #[trigger]
            self@.contains_key(k) ==> self@[k].ticket < self.next_ticket
    }

    /// Whether another upsert can hand out a fresh ticket.
    pub fn has_tickets_left(&self) -> (b: bool)
        ensures
            b == (self.next_ticket() < u64::MAX),
    {
        self.next_ticket < u64::MAX
    }

    /// An empty map.
    pub fn new() -> (m: DebounceMap)
        ensures
            m.wf(),
            m.tickets_issued(),
            m.next_ticket() == 0,
            m@ == Map::<Seq<char>, PendingView>::empty(),
    {
        let m = DebounceMap { entries: Vec::new(), next_ticket: 0 };
        proof {
            assert(m.entries@.len() == 0);
        }
        m
    }

    /// Index of the entry for `key`.
    fn find(&self, key: &str) -> (r: Option<usize>)
        requires
            self.wf(),
        ensures
            r matches Some(j) ==> j < self.entries@.len() && self.entries@[j as int].0@ == key@,
            r is None ==> !self@.contains_key(key@),
    {
        let mut j: usize = 0;
        while j < self.entries.len()
            invariant
                j <= self.entries@.len(),
                forall|t: int| 0 <= t < j ==> self.entries@[t].0@ != key@,
            decreases self.entries@.len() - j,
        {
            if str_eq(self.entries[j].0.as_str(), key) {
                return Some(j);
            }
            j = j + 1;
        }
        proof {
            lemma_entries_view_absent(self.entries@, key@);
        }
        None
    }

    /// Removes and returns the pending update for `key`, if any.
    pub fn take(&mut self, key: &str) -> (r: Option<PendingUpdate>)
        requires
            old(self).wf(),
        ensures
            final(self).wf(),
            final(self).next_ticket() == old(self).next_ticket(),
            old(self).tickets_issued() ==> final(self).tickets_issued(),
            final(self)@ == old(self)@.remove(key@),
            r matches Some(p) ==> old(self)@.contains_key(key@) && p@ == old(self)@[key@],
            r is None ==> !old(self)@.contains_key(key@),
    {
        match self.find(key) {
            Some(j) => {
                proof {
                    lemma_entries_view_index(self.entries@, j as int);
                    lemma_entries_view_remove(self.entries@, j as int);
                }
                let (_, p) = self.entries.remove(j);
                Some(p)
            },
            None => {
                proof {
                    assert(self@.remove(key@) =~= self@);
                }
                None
            },
        }
    }

    /// Removes and returns the pending update for `key` when it still holds
    /// `ticket`, that is, when no upsert on `key` came after the one that
    /// handed out `ticket`.
    pub fn take_if_current(&mut self, key: &str, ticket: u64) -> (r: Option<PendingUpdate>)
        requires
            old(self).wf(),
        ensures
            final(self).wf(),
            final(self).next_ticket() == old(self).next_ticket(),
            old(self).tickets_issued() ==> final(self).tickets_issued(),
            (old(self)@.contains_key(key@) && old(self)@[key@].ticket == ticket) ==> (final(self)@
                == old(self)@.remove(key@) && (r matches Some(p) && p@ == old(self)@[key@])),
            !(old(self)@.contains_key(key@) && old(self)@[key@].ticket == ticket) ==> (final(self)@
                == old(self)@ && r is None),
    {
        match self.find(key) {
            Some(j) => {
                proof {
                    lemma_entries_view_index(self.entries@, j as int);
                }
                if self.entries[j].1.ticket == ticket {
                    proof {
                        lemma_entries_view_remove(self.entries@, j as int);
                    }
                    let (_, p) = self.entries.remove(j);
                    Some(p)
                } else {
                    None
                }
            },
            None => None,
        }
    }

    /// Inserts or merges an update for `key`, arriving at `now_ms`.
    ///
    /// When an entry already exists, change descriptions are merged
    /// (deduplicating exact matches), and the event is replaced with the
    /// latest state. A create followed by updates stays a create.
    ///
    /// Returns `(ticket, actual_delay_ms)`: the caller waits
    /// `actual_delay_ms` and then calls [`DebounceMap::take_if_current`] with
    /// the ticket. The actual delay is `min(delay_ms, remaining_max_wait)`
    /// (at least 1) so the window never exceeds `max_wait_ms` from the first
    /// event.
    pub fn upsert(
        &mut self,
        key: String,
        event: Event,
        dm_email: Option<String>,
        delay_ms: u64,
        max_wait_ms: u64,
        now_ms: u64,
    ) -> (r: (u64, u64))
        requires
            old(self).wf(),
            old(self).next_ticket() < u64::MAX,
        ensures
            final(self).wf(),
            final(self).next_ticket() == old(self).next_ticket() + 1,
            old(self).tickets_issued() ==> final(self).tickets_issued(),
            r.0 == old(self).next_ticket(),
            final(self)@ == old(self)@.insert(
                key@,
                spec_upserted(
                    if old(self)@.contains_key(key@) {
                        Some(old(self)@[key@])
                    } else {
                        None
                    },
                    event@,
                    opt_str(dm_email),
                    r.0,
                    now_ms,
                ),
            ),
            r.1 == spec_delay(delay_ms, max_wait_ms, final(self)@[key@].first_received_ms, now_ms),
    {
        let ghost old_map = self@;
        let ticket = self.next_ticket;
        let existing = self.take(key.as_str());
        let ghost removed = self@;
        let ghost prev = self.entries@;
        let pending = match existing {
            Some(old) => {
                let merged = merge_events(&old.event, event);
                let dm = match dm_email {
                    Some(d) => Some(d),
                    None => old.dm_email,
                };
                PendingUpdate { event: merged, dm_email: dm, ticket, first_received_ms: old.first_received_ms }
            },
            None => PendingUpdate { event, dm_email, ticket, first_received_ms: now_ms },
        };
        let delay = actual_delay(delay_ms, max_wait_ms, pending.first_received_ms, now_ms);
        let ghost pv = pending@;
        let ghost k = key@;
        self.entries.push((key, pending));
        self.next_ticket = ticket + 1;
        proof {
            assert(self.entries@.drop_last() =~= prev);
            assert(self.entries@.last().0@ == k);
            assert(self.entries@.last().1@ == pv);
            assert forall|t: int| 0 <= t < prev.len() implies prev[t].0@ != k by {
                if prev[t].0@ == k {
                    lemma_entries_view_index(prev, t);
                }
            }
            assert(keys_distinct(self.entries@)) by {
                assert forall|a: int, b: int|
                    0 <= a < self.entries@.len() && 0 <= b < self.entries@.len() && a != b implies
                    self.entries@[a].0@ != self.entries@[b].0@ by {
                    if a < prev.len() && b < prev.len() {
                        assert(self.entries@[a] == prev[a]);
                        assert(self.entries@[b] == prev[b]);
                    } else if a < prev.len() {
                        assert(self.entries@[a] == prev[a]);
                    } else {
                        assert(self.entries@[b] == prev[b]);
                    }
                }
            }
            assert(self@ =~= removed.insert(k, pv));
            assert(self@ =~= old_map.insert(k, pv));
            if old(self).tickets_issued() {
                assert forall|q: Seq<char>| #[trigger] self@.contains_key(q) implies self@[q].ticket
                    < self.next_ticket by {
                    if q != k {
                        assert(old_map.contains_key(q));
                    }
                }
            }
        }
        (ticket, delay)
    }
}


impl Default for DebounceMap {
    fn default() -> (m: Self)
        ensures
            m.wf(),
            m.tickets_issued(),
            m.next_ticket() == 0,
            m@ == Map::<Seq<char>, PendingView>::empty(),
    {
        DebounceMap::new()
    }
}

// ---------------------------------------------------------------------------
// Laws
// ---------------------------------------------------------------------------

/// Merging change lists never drops a change and adds only changes of the
/// newer list: a change is in the result exactly when it is in either list.
pub proof fn law_merge_keeps_all_changes(all: Seq<Seq<char>>, new: Seq<Seq<char>>, c: Seq<char>)
    ensures
        merge_changes(all, new).contains(c) <==> (all.contains(c) || new.contains(c)),
    decreases new.len(),
{
    if new.len() > 0 {
        law_merge_keeps_all_changes(all, new.drop_last(), c);
        let merged = merge_changes(all, new.drop_last());
        if new.drop_last().contains(c) {
            let j = choose|j: int| 0 <= j < new.drop_last().len() && new.drop_last()[j] == c;
            assert(new[j] == c);
        }
        if new.contains(c) && c != new.last() {
            let j = choose|j: int| 0 <= j < new.len() && new[j] == c;
            assert(new.drop_last()[j] == c);
        }
        if !merged.contains(new.last()) {
            if merged.push(new.last()).contains(c) && c != new.last() {
                let j = choose|j: int| 0 <= j < merged.len() + 1 && merged.push(new.last())[j] == c;
                assert(merged[j] == c);
            }
            if merged.contains(c) {
                let j = choose|j: int| 0 <= j < merged.len() && merged[j] == c;
                assert(merged.push(new.last())[j] == c);
            }
            assert(merged.push(new.last())[merged.len() as int] == new.last());
        }
        assert(new[new.len() - 1] == new.last());
    }
}

/// Whether no element of `s` occurs twice.
pub open spec fn no_duplicates(s: Seq<Seq<char>>) -> bool {
    forall|i: int, j: int| 0 <= i < s.len() && 0 <= j < s.len() && i != j ==> s[i] != s[j]
}

/// Merging deduplicates: when the pending changes hold no duplicate, the
/// merged changes hold none either, and the pending changes stay first, in
/// their order.
pub proof fn law_merge_deduplicates(all: Seq<Seq<char>>, new: Seq<Seq<char>>)
    requires
        no_duplicates(all),
    ensures
        no_duplicates(merge_changes(all, new)),
        merge_changes(all, new).len() >= all.len(),
        merge_changes(all, new).take(all.len() as int) == all,
    decreases new.len(),
{
    if new.len() > 0 {
        law_merge_deduplicates(all, new.drop_last());
        let merged = merge_changes(all, new.drop_last());
        if !merged.contains(new.last()) {
            let m2 = merged.push(new.last());
            assert forall|i: int, j: int| 0 <= i < m2.len() && 0 <= j < m2.len() && i != j implies m2[i]
                != m2[j] by {
                if i == merged.len() {
                    assert(m2[j] == merged[j]);
                } else if j == merged.len() {
                    assert(m2[i] == merged[i]);
                }
            }
            assert(m2.take(all.len() as int) =~= merged.take(all.len() as int));
        }
    } else {
        assert(all.take(all.len() as int) =~= all);
    }
}

/// A create followed by updates stays a create: when the pending event is a
/// creation and the newer one is an issue event, the merged event is a
/// creation.
pub proof fn law_create_stays_created(existing: EventView, event: EventView)
    requires
        existing is IssueCreated,
        event is IssueCreated || event is IssueUpdated,
    ensures
        merged_event(existing, event) is IssueCreated,
{
}

/// Merging two issue events keeps the newest state: whatever the kinds of
/// the pending and the newer event, every field of the merged event but the
/// changes is the newer event's; it is a creation exactly when either of
/// the two is one; and its changes are the pending changes followed by the
/// new ones not already there.
pub proof fn law_merge_takes_newest_state(existing: EventView, event: EventView)
    requires
        existing is IssueCreated || existing is IssueUpdated,
        event is IssueCreated || event is IssueUpdated,
    ensures
        issue_snapshot(merged_event(existing, event)) == issue_snapshot(event),
        issue_snapshot(event) is Some,
        (merged_event(existing, event) is IssueCreated) <==> (existing is IssueCreated
            || event is IssueCreated),
        merged_event(existing, event) is IssueCreated || merged_event(existing, event) is IssueUpdated,
        view_changes(merged_event(existing, event)) == merge_changes(
            view_changes(existing),
            view_changes(event),
        ),
{
}

/// The merged event is the newer event (promoted to a creation when the
/// pending one was one) with the merged changes: the newer state wins.
pub proof fn law_latest_state_wins(existing: EventView, event: EventView)
    requires
        existing is IssueUpdated,
    ensures
        merged_event(existing, event) == view_with_changes(
            event,
            merge_changes(view_changes(existing), view_changes(event)),
        ),
{
}

/// The DM address of a window is the newest one given, else the earlier one.
pub proof fn law_dm_email_kept(old: PendingView, event: EventView, ticket: u64, now_ms: u64)
    ensures
        spec_upserted(Some(old), event, None, ticket, now_ms).dm_email == old.dm_email,
        forall|d: Seq<char>|
            spec_upserted(Some(old), event, Some(d), ticket, now_ms).dm_email == Some(d),
{
}

/// A merge keeps the start of the window.
pub proof fn law_window_start_kept(
    old: PendingView,
    event: EventView,
    dm_email: Option<Seq<char>>,
    ticket: u64,
    now_ms: u64,
)
    ensures
        spec_upserted(Some(old), event, dm_email, ticket, now_ms).first_received_ms
            == old.first_received_ms,
        spec_upserted(None, event, dm_email, ticket, now_ms).first_received_ms == now_ms,
{
}

/// The wait is at least 1 ms, never longer than the requested delay (when
/// that is at least 1 ms), and never ends after `max_wait_ms` past the first
/// event while that point lies ahead.
pub proof fn law_delay_bounds(delay_ms: u64, max_wait_ms: u64, first_ms: u64, now_ms: u64)
    ensures
        spec_delay(delay_ms, max_wait_ms, first_ms, now_ms) >= 1,
        delay_ms >= 1 ==> spec_delay(delay_ms, max_wait_ms, first_ms, now_ms) <= delay_ms,
        (first_ms <= now_ms && now_ms < first_ms + max_wait_ms) ==> now_ms + spec_delay(
            delay_ms,
            max_wait_ms,
            first_ms,
            now_ms,
        ) <= first_ms + max_wait_ms,
        (now_ms <= first_ms && delay_ms <= max_wait_ms && delay_ms >= 1) ==> spec_delay(
            delay_ms,
            max_wait_ms,
            first_ms,
            now_ms,
        ) == delay_ms,
{
}

/// Only the last timer of a burst claims the entry: after a second upsert
/// on a key, the ticket of the first no longer matches the entry.
pub proof fn law_newer_upsert_supersedes(
    first: PendingView,
    event: EventView,
    dm_email: Option<Seq<char>>,
    second_ticket: u64,
    now_ms: u64,
)
    requires
        first.ticket < second_ticket,
    ensures
        spec_upserted(Some(first), event, dm_email, second_ticket, now_ms).ticket != first.ticket,
{
}

} // verus!
