//! The notification queue and the choice of what it shows.
//!
//! The queue keeps its entries in the order of their creation time. Each tick
//! a bounded number of them is shown: entries for operations still in flight
//! (`Loading`) first, oldest first, then the most recent of the others, oldest
//! first. One slot is always held back for the latest alert, so that a new
//! alert surfaces even while many operations run.

use vstd::prelude::*;

verus! {

/// The kind of a notification.
#[derive(Clone, Copy, Debug, PartialEq, Eq, Hash, Structural)]
pub enum ToastType {
    Error,
    Info,
    Warning,
    Loading,
}

/// One notification.
#[derive(Debug, PartialEq, Eq)]
pub struct ToastWidget {
    /// The handle by which its producer takes it out of the queue again.
    pub id: u64,
    pub toast_type: ToastType,
    pub message: String,
    /// When it was created, in milliseconds on the application's clock.
    pub start_time: u64,
    /// The display colour, as red, green and blue.
    pub toast_color: (u8, u8, u8),
}

impl Clone for ToastWidget {
    fn clone(&self) -> (copy: Self)
        ensures
            copy == *self,
    {
        ToastWidget {
            id: self.id,
            toast_type: self.toast_type,
            message: self.message.clone(),
            start_time: self.start_time,
            toast_color: self.toast_color,
        }
    }
}

impl ToastWidget {
    /// A notification with the given fields.
    pub fn new(
        id: u64,
        toast_type: ToastType,
        message: String,
        start_time: u64,
        toast_color: (u8, u8, u8),
    ) -> (toast: Self)
        ensures
            toast == (ToastWidget { id, toast_type, message, start_time, toast_color }),
    {
        ToastWidget { id, toast_type, message, start_time, toast_color }
    }

    /// The entry stands for an operation still in flight.
    pub open spec fn in_flight(self) -> bool {
        self.toast_type == ToastType::Loading
    }

    /// Whether the entry stands for an operation still in flight.
    pub fn is_loading(&self) -> (loading: bool)
        ensures
            loading == self.in_flight(),
    {
        self.toast_type == ToastType::Loading
    }
}

/// No entry is older than one that stands before it.
pub open spec fn in_time_order(entries: Seq<ToastWidget>) -> bool {
    forall|i: int, j: int|
        0 <= i <= j < entries.len() ==> (#[trigger] entries[i]).start_time <= (
        #[trigger] entries[j]).start_time
}

/// Where an entry created at `start_time` goes: behind every entry that is
/// not younger than it.
pub open spec fn insertion_point(entries: Seq<ToastWidget>, start_time: u64) -> nat
    decreases entries.len(),
{
    if entries.len() == 0 || entries.last().start_time <= start_time {
        entries.len()
    } else {
        insertion_point(entries.drop_last(), start_time)
    }
}

/// The entries in flight (`loading`) or the others (`!loading`), in queue order.
pub open spec fn entries_of_kind(entries: Seq<ToastWidget>, loading: bool) -> Seq<ToastWidget> {
    entries.filter(|t: ToastWidget| t.in_flight() == loading)
}

/// The entries that keep the id `id` out.
pub open spec fn entries_without(entries: Seq<ToastWidget>, id: u64) -> Seq<ToastWidget> {
    entries.filter(|t: ToastWidget| t.id != id)
}

/// Number of slots that go to entries in flight: all but one of the slots, or
/// fewer where fewer entries are in flight.
pub open spec fn loading_slots(in_flight: nat, capacity: nat) -> nat {
    if capacity == 0 {
        0
    } else if in_flight <= capacity - 1 {
        in_flight
    } else {
        (capacity - 1) as nat
    }
}

/// Number of slots that go to the other entries: what the entries in flight
/// leave, or fewer where there are fewer of them.
pub open spec fn alert_slots(in_flight: nat, alerts: nat, capacity: nat) -> nat {
    let left = (capacity - loading_slots(in_flight, capacity)) as nat;
    if alerts <= left {
        alerts
    } else {
        left
    }
}

/// What is shown of `entries` in `capacity` slots: the oldest entries in
/// flight, then the most recent of the others, each block oldest first.
pub open spec fn display_of(entries: Seq<ToastWidget>, capacity: nat) -> Seq<ToastWidget> {
    let in_flight = entries_of_kind(entries, true);
    let alerts = entries_of_kind(entries, false);
    let kept = loading_slots(in_flight.len(), capacity);
    let shown = alert_slots(in_flight.len(), alerts.len(), capacity);
    in_flight.take(kept as int) + alerts.skip(alerts.len() - shown)
}

/// The display never holds more entries than there are slots.
pub proof fn lemma_display_within_capacity(entries: Seq<ToastWidget>, capacity: nat)
    ensures
        display_of(entries, capacity).len() <= capacity,
        display_of(entries, capacity).len() == loading_slots(
            entries_of_kind(entries, true).len(),
            capacity,
        ) + alert_slots(
            entries_of_kind(entries, true).len(),
            entries_of_kind(entries, false).len(),
            capacity,
        ),
{
}

/// With two slots or more, an entry in flight is shown whenever there is one,
/// and so is another entry whenever there is one.
pub proof fn lemma_display_shows_both_kinds(entries: Seq<ToastWidget>, capacity: nat)
    requires
        capacity >= 2,
        exists|i: int| 0 <= i < entries.len() && entries[i].in_flight(),
    ensures
        exists|k: int|
            0 <= k < display_of(entries, capacity).len() && display_of(
                entries,
                capacity,
            )[k].in_flight(),
        (exists|i: int| 0 <= i < entries.len() && !entries[i].in_flight()) ==> exists|k: int|
            0 <= k < display_of(entries, capacity).len() && !display_of(
                entries,
                capacity,
            )[k].in_flight(),
{
    let in_flight = entries_of_kind(entries, true);
    let alerts = entries_of_kind(entries, false);
    let shown = display_of(entries, capacity);
    let kept = loading_slots(in_flight.len(), capacity);
    let i = choose|i: int| 0 <= i < entries.len() && entries[i].in_flight();
    entries.lemma_filter_contains(|t: ToastWidget| t.in_flight() == true, i);
    assert(in_flight.len() >= 1);
    entries.lemma_filter_pred(|t: ToastWidget| t.in_flight() == true, 0);
    assert(shown[0] == in_flight[0]);
    assert(shown[0].in_flight());
    if exists|i: int| 0 <= i < entries.len() && !entries[i].in_flight() {
        let j = choose|j: int| 0 <= j < entries.len() && !entries[j].in_flight();
        entries.lemma_filter_contains(|t: ToastWidget| t.in_flight() == false, j);
        assert(alerts.len() >= 1);
        let first_alert = alerts.len() - alert_slots(in_flight.len(), alerts.len(), capacity);
        entries.lemma_filter_pred(|t: ToastWidget| t.in_flight() == false, first_alert);
        assert(shown[kept as int] == alerts[first_alert]);
        assert(!shown[kept as int].in_flight());
    }
}

/// While the entries in flight leave a slot free, none of them is left out.
pub proof fn lemma_display_keeps_in_flight(entries: Seq<ToastWidget>, capacity: nat, i: int)
    requires
        0 <= i < entries.len(),
        entries[i].in_flight(),
        entries_of_kind(entries, true).len() + 1 <= capacity,
    ensures
        display_of(entries, capacity).contains(entries[i]),
{
    let in_flight = entries_of_kind(entries, true);
    entries.lemma_filter_contains(|t: ToastWidget| t.in_flight() == true, i);
    let k = choose|k: int| 0 <= k < in_flight.len() && in_flight[k] == entries[i];
    assert(in_flight.take(in_flight.len() as int) =~= in_flight);
    assert(display_of(entries, capacity)[k] == entries[i]);
}

/// The frame of the progress animation after `elapsed_ms` milliseconds: one
/// frame every hundred milliseconds, round and round.
pub open spec fn frame_at(elapsed_ms: nat, frame_count: nat) -> nat
    recommends
        frame_count > 0,
{
    (elapsed_ms / 100) % frame_count
}

/// Computes the animation frame of an entry in flight. The frame is for
/// display only.
pub fn spinner_frame(elapsed_ms: u64, frame_count: usize) -> (frame: usize)
    requires
        frame_count > 0,
    ensures
        frame == frame_at(elapsed_ms as nat, frame_count as nat),
        frame < frame_count,
{
    let ticks: u64 = elapsed_ms / 100;
    let count: u64 = frame_count as u64;
    (ticks % count) as usize
}

/// The notification queue. It grows without bound; entries leave it only when
/// their producer takes them out.
pub struct ToastQueue {
    entries: Vec<ToastWidget>,
}

impl View for ToastQueue {
    type V = Seq<ToastWidget>;

    closed spec fn view(&self) -> Seq<ToastWidget> {
        self.entries@
    }
}

impl ToastQueue {
    #[verifier::type_invariant]
    spec fn ordered(self) -> bool {
        in_time_order(self.entries@)
    }

    /// The empty queue.
    pub fn new() -> (queue: Self)
        ensures
            queue@ == Seq::<ToastWidget>::empty(),
            in_time_order(queue@),
    {
        ToastQueue { entries: Vec::new() }
    }

    /// Number of entries in the queue, shown or not.
    pub fn len(&self) -> (n: usize)
        ensures
            n == self@.len(),
    {
        self.entries.len()
    }

    /// Whether the queue holds no entry.
    pub fn is_empty(&self) -> (empty: bool)
        ensures
            empty == (self@.len() == 0),
    {
        self.entries.len() == 0
    }

    /// The entry at position `index`, oldest first.
    pub fn get(&self, index: usize) -> (toast: Option<&ToastWidget>)
        ensures
            index < self@.len() ==> toast == Some(&self@[index as int]),
            index >= self@.len() ==> toast is None,
    {
        if index < self.entries.len() {
            Some(&self.entries[index])
        } else {
            None
        }
    }

    /// Puts an entry into the queue, behind every entry that is not younger.
    pub fn push(&mut self, toast: ToastWidget)
        ensures
            final(self)@ == old(self)@.insert(
                insertion_point(old(self)@, toast.start_time) as int,
                toast,
            ),
            final(self)@.len() == old(self)@.len() + 1,
            in_time_order(old(self)@),
            in_time_order(final(self)@),
    {
        proof {
            use_type_invariant(&*self);
        }
        let ghost before = self.entries@;
        let mut at: usize = self.entries.len();
        proof {
            assert(before.take(at as int) =~= before);
        }
        while at > 0 && self.entries[at - 1].start_time > toast.start_time
            invariant
                at <= self.entries.len(),
                self.entries@ == before,
                insertion_point(before, toast.start_time) == insertion_point(
                    before.take(at as int),
                    toast.start_time,
                ),
                forall|j: int| at <= j < before.len() ==> before[j].start_time > toast.start_time,
            decreases at,
        {
            proof {
                assert(before.take(at as int).drop_last() =~= before.take(at - 1));
            }
            at -= 1;
        }
        proof {
            assert(before.take(before.len() as int) =~= before);
            let after = before.insert(at as int, toast);
            assert(in_time_order(after)) by {
                assert forall|i: int, j: int| 0 <= i <= j < after.len() implies (
                #[trigger] after[i]).start_time <= (#[trigger] after[j]).start_time by {
                    if i < at && j > at {
                        assert(after[i] == before[i] && after[j] == before[j - 1]);
                    } else if i < at && j < at {
                        assert(after[i] == before[i] && after[j] == before[j]);
                    } else if i > at {
                        assert(after[i] == before[i - 1] && after[j] == before[j - 1]);
                    } else if i == at && j > at {
                        assert(after[j] == before[j - 1]);
                    } else if j == at && i < at {
                        assert(after[i] == before[i]);
                        if at > 0 {
                            assert(before[at - 1].start_time <= toast.start_time);
                            assert(before[i].start_time <= before[at - 1].start_time);
                        }
                    }
                }
            }
        }
        let mut entries: Vec<ToastWidget> = Vec::new();
        std::mem::swap(&mut self.entries, &mut entries);
        entries.insert(at, toast);
        self.entries = entries;
    }

    /// Takes every entry with the id `id` out of the queue and says how many
    /// there were.
    pub fn remove(&mut self, id: u64) -> (removed: usize)
        ensures
            final(self)@ == entries_without(old(self)@, id),
            removed == old(self)@.len() - final(self)@.len(),
            in_time_order(old(self)@),
            in_time_order(final(self)@),
    {
        proof {
            use_type_invariant(&*self);
        }
        let ghost before = self.entries@;
        let mut entries: Vec<ToastWidget> = Vec::new();
        std::mem::swap(&mut self.entries, &mut entries);
        let mut removed: usize = 0;
        let mut i: usize = 0;
        proof {
            assert(before.len() == entries.len());
            assert(entries@.skip(0) =~= before.skip(0));
            assert(entries@.take(0) =~= entries_without(before.take(0), id)) by {
                reveal(Seq::filter);
            }
        }
        while i < entries.len()
            invariant
                i <= entries.len(),
                i + removed <= before.len() <= usize::MAX,
                entries@.len() + removed == before.len(),
                entries@.take(i as int) == entries_without(before.take(i + removed), id),
                entries@.skip(i as int) == before.skip(i + removed),
            decreases entries.len() - i,
        {
            proof {
                let seen = i + removed;
                assert(entries@[i as int] == entries@.skip(i as int)[0]);
                assert(entries@[i as int] == before[seen]);
                assert(before.take(seen + 1) =~= before.take(seen).push(before[seen]));
                before.take(seen).lemma_filter_push(before[seen], |t: ToastWidget| t.id != id);
            }
            if entries[i].id == id {
                let ghost whole = entries@;
                entries.remove(i);
                removed += 1;
                proof {
                    assert(entries@.take(i as int) =~= whole.take(i as int));
                    assert(entries@.skip(i as int) =~= whole.skip(i as int).skip(1));
                    assert(whole.skip(i as int).skip(1) =~= before.skip(i + removed));
                }
            } else {
                proof {
                    assert(entries@.take(i + 1) =~= entries@.take(i as int).push(entries@[i as int]));
                    assert(entries@.skip(i + 1) =~= entries@.skip(i as int).skip(1));
                    assert(entries@.skip(i as int).skip(1) =~= before.skip(i + removed + 1));
                }
                i += 1;
            }
        }
        proof {
            assert(entries@.take(entries@.len() as int) =~= entries@);
            assert(before.take(before.len() as int) =~= before);
            lemma_filtered_in_time_order(before, |t: ToastWidget| t.id != id);
        }
        self.entries = entries;
        removed
    }

    /// Chooses what is shown in `capacity` slots: the oldest entries in flight
    /// in all slots but one, or all of them where they leave more room; then
    /// the most recent of the other entries in the slots that are left. Each
    /// block is in queue order, oldest first.
    pub fn compose_display(&self, capacity: usize) -> (shown: Vec<ToastWidget>)
        ensures
            shown@ == display_of(self@, capacity as nat),
            shown@.len() <= capacity,
            in_time_order(self@),
            capacity >= 2 && (exists|i: int| 0 <= i < self@.len() && self@[i].in_flight())
                ==> exists|k: int| 0 <= k < shown@.len() && shown@[k].in_flight(),
            capacity >= 2 && (exists|i: int| 0 <= i < self@.len() && self@[i].in_flight()) && (
            exists|i: int| 0 <= i < self@.len() && !self@[i].in_flight()) ==> exists|k: int|
                0 <= k < shown@.len() && !shown@[k].in_flight(),
    {
        proof {
            use_type_invariant(self);
        }
        let in_flight: usize = count_of_kind(&self.entries, true);
        let alerts: usize = count_of_kind(&self.entries, false);
        let kept: usize = if capacity == 0 {
            0
        } else if in_flight <= capacity - 1 {
            in_flight
        } else {
            capacity - 1
        };
        let left: usize = capacity - kept;
        let shown_alerts: usize = if alerts <= left {
            alerts
        } else {
            left
        };
        let mut shown: Vec<ToastWidget> = Vec::new();
        collect_of_kind(&self.entries, true, 0, kept, &mut shown);
        collect_of_kind(&self.entries, false, alerts - shown_alerts, alerts, &mut shown);
        proof {
            assert(shown@ =~= display_of(self@, capacity as nat));
            lemma_display_within_capacity(self@, capacity as nat);
            if capacity >= 2 && (exists|i: int| 0 <= i < self@.len() && self@[i].in_flight()) {
                lemma_display_shows_both_kinds(self@, capacity as nat);
            }
        }
        shown
    }
}

/// Entries picked out of a queue in time order are in time order.
proof fn lemma_filtered_in_time_order(entries: Seq<ToastWidget>, keep: spec_fn(ToastWidget) -> bool)
    requires
        in_time_order(entries),
    ensures
        in_time_order(entries.filter(keep)),
    decreases entries.len(),
{
    reveal(Seq::filter);
    if entries.len() > 0 {
        let front = entries.drop_last();
        assert forall|i: int, j: int| 0 <= i <= j < front.len() implies (
        #[trigger] front[i]).start_time <= (#[trigger] front[j]).start_time by {
            assert(front[i] == entries[i] && front[j] == entries[j]);
        }
        lemma_filtered_in_time_order(front, keep);
        let picked = front.filter(keep);
        if keep(entries.last()) {
            let all = picked.push(entries.last());
            assert forall|i: int, j: int| 0 <= i <= j < all.len() implies (
            #[trigger] all[i]).start_time <= (#[trigger] all[j]).start_time by {
                if j == picked.len() && i < picked.len() {
                    front.lemma_filter_contains_rev(keep, picked[i]);
                    let k = choose|k: int| 0 <= k < front.len() && front[k] == picked[i];
                    assert(entries[k] == picked[i]);
                    assert(entries[k].start_time <= entries[entries.len() - 1].start_time);
                }
            }
        }
    }
}

/// Counts the entries in flight (`loading`) or the others (`!loading`).
fn count_of_kind(entries: &Vec<ToastWidget>, loading: bool) -> (n: usize)
    ensures
        n == entries_of_kind(entries@, loading).len(),
{
    let mut n: usize = 0;
    let mut i: usize = 0;
    while i < entries.len()
        invariant
            i <= entries.len(),
            n <= i,
            n == entries_of_kind(entries@.take(i as int), loading).len(),
        decreases entries.len() - i,
    {
        proof {
            assert(entries@.take(i + 1) =~= entries@.take(i as int).push(entries@[i as int]));
            entries@.take(i as int).lemma_filter_push(
                entries@[i as int],
                |t: ToastWidget| t.in_flight() == loading,
            );
        }
        if entries[i].is_loading() == loading {
            n += 1;
        }
        i += 1;
    }
    proof {
        assert(entries@.take(entries@.len() as int) =~= entries@);
    }
    n
}

/// Appends to `out` the entries of one kind that stand at the positions
/// `from..upto` among the entries of that kind.
fn collect_of_kind(
    entries: &Vec<ToastWidget>,
    loading: bool,
    from: usize,
    upto: usize,
    out: &mut Vec<ToastWidget>,
)
    requires
        from <= upto <= entries_of_kind(entries@, loading).len(),
    ensures
        final(out)@ == old(out)@ + entries_of_kind(entries@, loading).subrange(
            from as int,
            upto as int,
        ),
{
    let ghost start = out@;
    let ghost all = entries_of_kind(entries@, loading);
    let mut seen: usize = 0;
    let mut i: usize = 0;
    while i < entries.len()
        invariant
            i <= entries.len(),
            seen <= i,
            from <= upto <= all.len(),
            all == entries_of_kind(entries@, loading),
            seen == entries_of_kind(entries@.take(i as int), loading).len(),
            entries_of_kind(entries@.take(i as int), loading) == all.take(seen as int),
            seen <= all.len(),
            out@ == start + all.subrange(
                from as int,
                if seen < from {
                    from as int
                } else if seen < upto {
                    seen as int
                } else {
                    upto as int
                },
            ),
        decreases entries.len() - i,
    {
        proof {
            let head = entries@.take(i as int);
            assert(entries@.take(i + 1) =~= head.push(entries@[i as int]));
            head.lemma_filter_push(entries@[i as int], |t: ToastWidget| t.in_flight() == loading);
            lemma_filter_of_prefix(entries@, i + 1, |t: ToastWidget| t.in_flight() == loading);
            let longer = entries_of_kind(entries@.take(i + 1), loading);
            assert(longer == all.take(longer.len() as int));
            if entries@[i as int].in_flight() == loading {
                assert(longer == entries_of_kind(head, loading).push(entries@[i as int]));
                assert(longer[seen as int] == entries@[i as int]);
                assert(all[seen as int] == entries@[i as int]);
            }
        }
        if entries[i].is_loading() == loading {
            if from <= seen && seen < upto {
                out.push(entries[i].clone());
                proof {
                    assert(all[seen as int] == entries@[i as int]);
                    assert(out@ =~= start + all.subrange(from as int, seen + 1));
                }
            }
            seen += 1;
        }
        i += 1;
    }
    proof {
        assert(entries@.take(entries@.len() as int) =~= entries@);
        assert(all.take(seen as int).len() == all.len());
    }
}

/// What is picked out of the first `n` entries is the front of what is picked
/// out of all of them.
proof fn lemma_filter_of_prefix(entries: Seq<ToastWidget>, n: int, keep: spec_fn(ToastWidget) -> bool)
    requires
        0 <= n <= entries.len(),
    ensures
        entries.take(n).filter(keep) == entries.filter(keep).take(
            entries.take(n).filter(keep).len() as int,
        ),
        entries.take(n).filter(keep).len() <= entries.filter(keep).len(),
    decreases entries.len() - n,
{
    if n == entries.len() {
        assert(entries.take(n) =~= entries);
        assert(entries.filter(keep).take(entries.filter(keep).len() as int) =~= entries.filter(
            keep,
        ));
    } else {
        lemma_filter_of_prefix(entries, n + 1, keep);
        let head = entries.take(n);
        assert(entries.take(n + 1) =~= head.push(entries[n]));
        head.lemma_filter_push(entries[n], keep);
        let longer = entries.take(n + 1).filter(keep);
        let shorter = head.filter(keep);
        assert(shorter =~= longer.take(shorter.len() as int));
        assert(longer.take(shorter.len() as int) =~= entries.filter(keep).take(
            longer.len() as int,
        ).take(shorter.len() as int));
        assert(shorter =~= entries.filter(keep).take(shorter.len() as int));
    }
}

} // verus!
