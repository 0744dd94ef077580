use crate::error::{ErrorView, UnicomError, UnicomErrorKind};
use crate::text::{decimal, decimal_digits};
use vstd::prelude::*;
use vstd::string::*;

verus! {

/// What a request ends with: the payload of its response, or a failure.
pub type Outcome = Result<Vec<u8>, UnicomError>;

/// An `Outcome` in contracts.
pub type OutcomeView = Result<Seq<u8>, ErrorView>;

/// What `outcome` stands for in contracts.
pub open spec fn outcome_view(outcome: Outcome) -> OutcomeView {
    match outcome {
        Ok(data) => Ok(data@),
        Err(error) => Err(error@),
    }
}

/// What `slot` stands for in contracts.
pub open spec fn slot_view(slot: Option<Outcome>) -> Option<OutcomeView> {
    match slot {
        Some(outcome) => Some(outcome_view(outcome)),
        None => None,
    }
}

/// The failure that names a correlation id without an entry to complete
/// or to take.
pub open spec fn not_found(id: u64) -> ErrorView {
    ErrorView {
        kind: UnicomErrorKind::NotFound,
        description: "pending request not found "@ + decimal_digits(id as nat),
    }
}

/// The table of requests in flight, as contracts see it.
///
/// `issued` counts the ids handed out so far: they are `1..=issued`, so that
/// 0 never names an entry. `entries` maps the id of each entry to its slot:
/// `None` while the caller waits, the outcome once it was completed.
pub struct PendingView {
    pub issued: nat,
    pub entries: Map<u64, Option<OutcomeView>>,
}

/// One operation on the table.
pub enum PendingOp {
    Allocate,
    Complete { id: u64, outcome: OutcomeView },
    Take { id: u64 },
    Abandon { id: u64 },
    Drain { error: ErrorView },
}

impl PendingView {
    pub open spec fn empty() -> PendingView {
        PendingView { issued: 0, entries: Map::empty() }
    }

    /// Every entry was handed out: no id is 0 or beyond the last one issued.
    pub open spec fn wf(self) -> bool {
        &&& self.issued <= u64::MAX
        &&& forall|id: u64| #[trigger] self.entries.contains_key(id) ==> 1 <= id <= self.issued
    }

    /// The entry exists and was not completed yet.
    pub open spec fn is_waiting(self, id: u64) -> bool {
        self.entries.contains_key(id) && self.entries[id] is None
    }

    /// The entry exists and holds an outcome that nobody took yet.
    pub open spec fn is_completed(self, id: u64) -> bool {
        self.entries.contains_key(id) && self.entries[id] is Some
    }

    /// The ids whose callers wait.
    pub open spec fn outstanding(self) -> Set<u64> {
        Set::new(|id: u64| self.is_waiting(id))
    }

    /// Every id was handed out.
    pub open spec fn exhausted(self) -> bool {
        self.issued >= u64::MAX
    }

    /// The id that the next allocation hands out.
    pub open spec fn next_id(self) -> Option<u64> {
        if self.exhausted() {
            None
        } else {
            Some((self.issued + 1) as u64)
        }
    }

    /// The table after an allocation.
    pub open spec fn allocate(self) -> PendingView {
        match self.next_id() {
            Some(id) => PendingView {
                issued: self.issued + 1,
                entries: self.entries.insert(id, None),
            },
            None => self,
        }
    }

    /// The table after `complete(id, outcome)`: only a waiting entry takes
    /// the outcome.
    pub open spec fn complete(self, id: u64, outcome: OutcomeView) -> PendingView {
        if self.is_waiting(id) {
            PendingView { issued: self.issued, entries: self.entries.insert(id, Some(outcome)) }
        } else {
            self
        }
    }

    /// What `take(id)` hands out: the stored outcome, nothing while the
    /// entry waits, the failure `not_found(id)` without an entry.
    pub open spec fn taken(self, id: u64) -> Option<OutcomeView> {
        if self.entries.contains_key(id) {
            self.entries[id]
        } else {
            Some(Err(not_found(id)))
        }
    }

    /// The table after `take(id)`: a completed entry leaves.
    pub open spec fn take(self, id: u64) -> PendingView {
        if self.is_completed(id) {
            PendingView { issued: self.issued, entries: self.entries.remove(id) }
        } else {
            self
        }
    }

    /// The table after `abandon(id)`: the entry leaves, whatever it holds.
    pub open spec fn abandon(self, id: u64) -> PendingView {
        PendingView { issued: self.issued, entries: self.entries.remove(id) }
    }

    /// The table after `drain(error)`: every waiting entry is completed with
    /// the failure, every other entry keeps what it holds.
    pub open spec fn drain(self, error: ErrorView) -> PendingView {
        PendingView {
            issued: self.issued,
            entries: Map::new(
                |id: u64| self.entries.contains_key(id),
                |id: u64|
                    if self.entries[id] is None {
                        Some(Err(error))
                    } else {
                        self.entries[id]
                    },
            ),
        }
    }

    /// The table after one operation.
    pub open spec fn apply(self, op: PendingOp) -> PendingView {
        match op {
            PendingOp::Allocate => self.allocate(),
            PendingOp::Complete { id, outcome } => self.complete(id, outcome),
            PendingOp::Take { id } => self.take(id),
            PendingOp::Abandon { id } => self.abandon(id),
            PendingOp::Drain { error } => self.drain(error),
        }
    }

    /// The table after the operations of `ops`, first to last.
    pub open spec fn run(self, ops: Seq<PendingOp>) -> PendingView
        decreases ops.len(),
    {
        if ops.len() == 0 {
            self
        } else {
            self.run(ops.drop_last()).apply(ops.last())
        }
    }

    /// The table after each `(id, outcome)` of `replies` was handed to
    /// `complete`, first to last.
    pub open spec fn complete_all(self, replies: Seq<(u64, OutcomeView)>) -> PendingView
        decreases replies.len(),
    {
        if replies.len() == 0 {
            self
        } else {
            self.complete_all(replies.drop_last()).complete(replies.last().0, replies.last().1)
        }
    }
}

/// One operation keeps the table well formed and never takes back an id.
pub proof fn lemma_apply_keeps_wf(s: PendingView, op: PendingOp)
    requires
        s.wf(),
    ensures
        s.apply(op).wf(),
        s.issued <= s.apply(op).issued,
{
}

/// A run of operations keeps the table well formed and never takes back an
/// id.
pub proof fn lemma_run_keeps_wf(s: PendingView, ops: Seq<PendingOp>)
    requires
        s.wf(),
    ensures
        s.run(ops).wf(),
        s.issued <= s.run(ops).issued,
    decreases ops.len(),
{
    if ops.len() > 0 {
        lemma_run_keeps_wf(s, ops.drop_last());
        lemma_apply_keeps_wf(s.run(ops.drop_last()), ops.last());
    }
}

/// Ids are unique and strictly increasing: an id that was handed out is
/// below every id handed out after it, whatever happened to the table in
/// between; it is never 0 and names no entry that existed before.
pub proof fn law_ids_strictly_increase(s: PendingView, ops: Seq<PendingOp>)
    requires
        s.wf(),
        s.next_id() is Some,
    ensures
        s.next_id().unwrap() != 0,
        !s.entries.contains_key(s.next_id().unwrap()),
        s.allocate().run(ops).next_id() is Some ==> s.next_id().unwrap() < s.allocate().run(
            ops,
        ).next_id().unwrap(),
{
    lemma_apply_keeps_wf(s, PendingOp::Allocate);
    lemma_run_keeps_wf(s.allocate(), ops);
}

/// An entry that does not wait, under an id that was handed out, never
/// waits again.
proof fn lemma_settled_stays_settled(s: PendingView, id: u64, ops: Seq<PendingOp>)
    requires
        s.wf(),
        id <= s.issued,
        !s.is_waiting(id),
    ensures
        !s.run(ops).is_waiting(id),
        id <= s.run(ops).issued,
        s.run(ops).wf(),
    decreases ops.len(),
{
    if ops.len() > 0 {
        lemma_settled_stays_settled(s, id, ops.drop_last());
    }
}

/// At most one completion: once `complete(id, _)` succeeded, no later call
/// for the same id finds a waiting entry, whatever happened to the table in
/// between, so it fails and leaves the table as it is.
pub proof fn law_complete_at_most_once(
    s: PendingView,
    id: u64,
    first: OutcomeView,
    ops: Seq<PendingOp>,
    second: OutcomeView,
)
    requires
        s.wf(),
        s.is_waiting(id),
    ensures
        !s.complete(id, first).run(ops).is_waiting(id),
        s.complete(id, first).run(ops).complete(id, second) == s.complete(id, first).run(ops),
{
    lemma_settled_stays_settled(s.complete(id, first), id, ops);
}

/// A caller that asks before the completion is told to wait, and its entry
/// stays. After `complete(id, outcome)` the first `take(id)` hands out that
/// outcome, and a second one fails with `not_found(id)`.
pub proof fn law_take_returns_completion(s: PendingView, id: u64, outcome: OutcomeView)
    requires
        s.wf(),
        s.is_waiting(id),
    ensures
        s.taken(id) is None,
        s.take(id) == s,
        s.complete(id, outcome).taken(id) == Some(outcome),
        s.complete(id, outcome).take(id).taken(id) == Some(Err::<Seq<u8>, ErrorView>(not_found(id))),
{
}

/// Completions of other ids leave an entry as it is.
proof fn lemma_complete_all_frame(s: PendingView, replies: Seq<(u64, OutcomeView)>, id: u64)
    requires
        forall|i: int| 0 <= i < replies.len() ==> (#[trigger] replies[i]).0 != id,
    ensures
        s.complete_all(replies).entries.contains_key(id) == s.entries.contains_key(id),
        s.complete_all(replies).entries[id] == s.entries[id],
    decreases replies.len(),
{
    if replies.len() > 0 {
        lemma_complete_all_frame(s, replies.drop_last(), id);
    }
}

/// Responses reach their own callers: where the replies to distinct waiting
/// requests arrive in any order, each entry ends with the outcome that came
/// under its id, and that is what its caller takes.
pub proof fn law_replies_reach_their_callers(
    s: PendingView,
    replies: Seq<(u64, OutcomeView)>,
    k: int,
)
    requires
        s.wf(),
        0 <= k < replies.len(),
        forall|i: int| 0 <= i < replies.len() ==> s.is_waiting((#[trigger] replies[i]).0),
        forall|i: int, j: int|
            0 <= i < j < replies.len() ==> (#[trigger] replies[i]).0 != (#[trigger] replies[j]).0,
    ensures
        s.complete_all(replies).taken(replies[k].0) == Some(replies[k].1),
    decreases replies.len(),
{
    let front = replies.drop_last();
    if k == replies.len() - 1 {
        lemma_complete_all_frame(s, front, replies[k].0);
    } else {
        law_replies_reach_their_callers(s, front, k);
        assert(front[k] == replies[k]);
    }
}

/// A drain releases every waiting caller with the failure it was given, and
/// leaves nobody waiting; an outcome that was stored before stays.
pub proof fn law_drain_releases_everyone(s: PendingView, error: ErrorView, id: u64)
    ensures
        s.drain(error).outstanding() =~= Set::<u64>::empty(),
        s.is_waiting(id) ==> s.drain(error).taken(id) == Some(Err::<Seq<u8>, ErrorView>(error)),
        s.is_completed(id) ==> s.drain(error).taken(id) == s.taken(id),
{
}

/// One request in flight.
#[derive(Debug)]
struct PendingEntry {
    id: u64,
    slot: Option<Outcome>,
}

spec fn has_id(entries: Seq<PendingEntry>, id: u64) -> bool {
    exists|i: int| 0 <= i < entries.len() && (#[trigger] entries[i]).id == id
}

spec fn index_of(entries: Seq<PendingEntry>, id: u64) -> int {
    choose|i: int| 0 <= i < entries.len() && (#[trigger] entries[i]).id == id
}

spec fn ascending(entries: Seq<PendingEntry>) -> bool {
    forall|i: int, j: int|
        0 <= i < j < entries.len() ==> (#[trigger] entries[i]).id < (#[trigger] entries[j]).id
}

spec fn entries_map(entries: Seq<PendingEntry>) -> Map<u64, Option<OutcomeView>> {
    Map::new(
        |id: u64| has_id(entries, id),
        |id: u64| slot_view(entries[index_of(entries, id)].slot),
    )
}

proof fn lemma_entry_at(entries: Seq<PendingEntry>, i: int)
    requires
        ascending(entries),
        0 <= i < entries.len(),
    ensures
        has_id(entries, entries[i].id),
        index_of(entries, entries[i].id) == i,
        entries_map(entries).contains_key(entries[i].id),
        entries_map(entries)[entries[i].id] == slot_view(entries[i].slot),
{
    let id = entries[i].id;
    assert(has_id(entries, id));
    let j = index_of(entries, id);
    assert(0 <= j < entries.len() && entries[j].id == id);
    if j < i {
        assert(entries[j].id < entries[i].id);
    } else if i < j {
        assert(entries[i].id < entries[j].id);
    }
}

/// The table of requests in flight.
///
/// Each outbound request gets an entry under a fresh correlation id. The
/// entry waits until the reply is stored in it, and leaves the table when
/// its caller takes the reply. The table itself never sleeps: `take` says
/// when the caller has to wait, and `complete` and `drain` say whom to wake.
#[derive(Debug)]
pub struct PendingController {
    issued: u64,
    entries: Vec<PendingEntry>,
}

impl View for PendingController {
    type V = PendingView;

    closed spec fn view(&self) -> PendingView {
        PendingView { issued: self.issued as nat, entries: entries_map(self.entries@) }
    }
}

impl PendingController {
    /// The entries stand in the order in which their ids were handed out.
    pub closed spec fn inv(&self) -> bool {
        &&& ascending(self.entries@)
        &&& forall|i: int|
            0 <= i < self.entries@.len() ==> 1 <= (#[trigger] self.entries@[i]).id <= self.issued
    }

    /// The table is in order, and stands for a well-formed view.
    pub open spec fn wf(&self) -> bool {
        self.inv() && self@.wf()
    }

    /// A table without entries that has handed out no id.
    pub fn new() -> (r: PendingController)
        ensures
            r.wf(),
            r@ == PendingView::empty(),
    {
        let r = PendingController { issued: 0, entries: Vec::new() };
        assert(r@.entries =~= Map::<u64, Option<OutcomeView>>::empty());
        r
    }

    /// The position of the entry of `id`.
    fn find(&self, id: u64) -> (r: Option<usize>)
        ensures
            match r {
                Some(i) => i < self.entries@.len() && self.entries@[i as int].id == id,
                None => !has_id(self.entries@, id),
            },
    {
        let mut i: usize = 0;
        while i < self.entries.len()
            invariant
                i <= self.entries@.len(),
                forall|j: int| 0 <= j < i ==> (#[trigger] self.entries@[j]).id != id,
            decreases self.entries@.len() - i,
        {
            if self.entries[i].id == id {
                return Some(i);
            }
            i += 1;
        }
        None
    }

    /// The number of entries, waiting or completed.
    pub fn len(&self) -> (r: usize)
        requires
            self.wf(),
        ensures
            r == self@.entries.dom().len(),
            self@.entries.dom().finite(),
    {
        proof {
            lemma_domain_len(self.entries@);
        }
        self.entries.len()
    }

    /// Hands out the next correlation id and opens a waiting entry under it.
    /// Ids start at 1 and grow by one; `None` says that all were handed out.
    pub fn allocate(&mut self) -> (r: Option<u64>)
        requires
            old(self).wf(),
        ensures
            r == old(self)@.next_id(),
            final(self)@ == old(self)@.allocate(),
            final(self).wf(),
    {
        if self.issued == u64::MAX {
            return None;
        }
        let id = self.issued + 1;
        let ghost before = self.entries@;
        self.issued = id;
        self.entries.push(PendingEntry { id, slot: None });
        proof {
            let after = self.entries@;
            assert(after =~= before.push(PendingEntry { id, slot: None }));
            assert forall|k: u64| has_id(after, k) == (has_id(before, k) || k == id) by {
                if has_id(before, k) {
                    let i = index_of(before, k);
                    assert(after[i].id == k);
                }
                if k == id {
                    assert(after[before.len() as int].id == k);
                }
                if has_id(after, k) {
                    let i = index_of(after, k);
                    if i < before.len() {
                        assert(before[i].id == k);
                    }
                }
            }
            assert forall|k: u64| has_id(after, k) implies #[trigger] entries_map(after)[k] == old(
                self,
            )@.entries.insert(id, None)[k] by {
                let i = index_of(after, k);
                lemma_entry_at(after, i);
                if i < before.len() {
                    assert(before[i] == after[i]);
                    lemma_entry_at(before, i);
                }
            }
            assert(final(self)@.entries =~= old(self)@.entries.insert(id, None));
        }
        Some(id)
    }

    /// Stores the outcome of request `id` in its entry. Succeeds where the
    /// entry waits: its caller is then to be woken. Fails with
    /// `not_found(id)`, and changes nothing, where there is no entry under
    /// `id` or the entry was completed before.
    pub fn complete(&mut self, id: u64, outcome: Outcome) -> (r: Result<(), UnicomError>)
        requires
            old(self).wf(),
        ensures
            r is Ok <==> old(self)@.is_waiting(id),
            r is Err ==> r->Err_0@ == not_found(id),
            final(self)@ == old(self)@.complete(id, outcome_view(outcome)),
            final(self).wf(),
    {
        let found = self.find(id);
        match found {
            Some(i) => {
                proof {
                    lemma_entry_at(self.entries@, i as int);
                }
                if self.entries[i].slot.is_none() {
                    let ghost before = self.entries@;
                    let ghost entry = PendingEntry { id, slot: Some(outcome) };
                    self.entries.set(i, PendingEntry { id, slot: Some(outcome) });
                    proof {
                        let after = self.entries@;
                        assert(after =~= before.update(i as int, entry));
                        lemma_update_slot(before, i as int, Some(outcome));
                    }
                    Ok(())
                } else {
                    Err(missing(id))
                }
            },
            None => Err(missing(id)),
        }
    }

    /// Hands out the outcome of request `id` and removes its entry. While
    /// the entry waits it stays, and the result is `None`: the caller has to
    /// wait for the wake that `complete` or `drain` asks for. Without an
    /// entry the result is the failure `not_found(id)`.
    pub fn take(&mut self, id: u64) -> (r: Option<Outcome>)
        requires
            old(self).wf(),
        ensures
            slot_view(r) == old(self)@.taken(id),
            final(self)@ == old(self)@.take(id),
            final(self).wf(),
    {
        let found = self.find(id);
        match found {
            Some(i) => {
                proof {
                    lemma_entry_at(self.entries@, i as int);
                }
                if self.entries[i].slot.is_none() {
                    None
                } else {
                    let ghost before = self.entries@;
                    let entry = self.entries.remove(i);
                    proof {
                        lemma_remove_entry(before, i as int);
                    }
                    entry.slot
                }
            },
            None => Some(Err(missing(id))),
        }
    }

    /// Gives up request `id`: removes its entry, whatever it holds, and says
    /// whether there was one. A reply that comes later finds no entry and is
    /// dropped.
    pub fn abandon(&mut self, id: u64) -> (r: bool)
        requires
            old(self).wf(),
        ensures
            r == old(self)@.entries.contains_key(id),
            final(self)@ == old(self)@.abandon(id),
            final(self).wf(),
    {
        let found = self.find(id);
        match found {
            Some(i) => {
                let ghost before = self.entries@;
                proof {
                    lemma_entry_at(before, i as int);
                }
                let _ = self.entries.remove(i);
                proof {
                    lemma_remove_entry(before, i as int);
                }
                true
            },
            None => {
                proof {
                    assert(final(self)@.entries =~= old(self)@.entries.remove(id));
                }
                false
            },
        }
    }

    /// Whether the entry of `id` exists and waits.
    pub fn is_waiting(&self, id: u64) -> (r: bool)
        requires
            self.wf(),
        ensures
            r == self@.is_waiting(id),
    {
        match self.find(id) {
            Some(i) => {
                proof {
                    lemma_entry_at(self.entries@, i as int);
                }
                self.entries[i].slot.is_none()
            },
            None => false,
        }
    }

    /// Completes every waiting entry with `error` and hands out their ids,
    /// in ascending order: the callers to wake. Entries that hold an outcome
    /// keep it.
    pub fn drain(&mut self, error: &UnicomError) -> (released: Vec<u64>)
        requires
            old(self).wf(),
        ensures
            final(self)@ == old(self)@.drain(error@),
            final(self).wf(),
            forall|id: u64| released@.contains(id) <==> old(self)@.is_waiting(id),
            forall|i: int, j: int| 0 <= i < j < released@.len() ==> released@[i] < released@[j],
    {
        let ghost before = self.entries@;
        let mut released: Vec<u64> = Vec::new();
        let mut i: usize = 0;
        while i < self.entries.len()
            invariant
                i <= self.entries@.len(),
                self.entries@.len() == before.len(),
                self.issued == old(self).issued,
                ascending(before),
                forall|k: int|
                    0 <= k < before.len() ==> (#[trigger] self.entries@[k]).id == before[k].id,
                forall|k: int|
                    0 <= k < i ==> slot_view((#[trigger] self.entries@[k]).slot) == (if before[k].slot is None {
                        Some(Err::<Seq<u8>, ErrorView>(error@))
                    } else {
                        slot_view(before[k].slot)
                    }),
                forall|k: int| i <= k < before.len() ==> #[trigger] self.entries@[k] == before[k],
                forall|id: u64|
                    released@.contains(id) <==> exists|k: int|
                        0 <= k < i && (#[trigger] before[k]).id == id && before[k].slot is None,
                forall|a: int, b: int|
                    0 <= a < b < released@.len() ==> released@[a] < released@[b],
                released@.len() > 0 ==> i > 0,
                forall|a: int|
                    0 <= a < released@.len() ==> (#[trigger] released@[a]) <= before[i - 1].id,
            decreases self.entries@.len() - i,
        {
            if self.entries[i].slot.is_none() {
                let id = self.entries[i].id;
                let ghost rel_before = released@;
                self.entries.set(i, PendingEntry { id, slot: Some(Err(error.clone())) });
                released.push(id);
                proof {
                    assert(released@ =~= rel_before.push(id));
                    assert forall|x: u64| released@.contains(x) <==> exists|k: int|
                        0 <= k < i + 1 && (#[trigger] before[k]).id == x
                            && before[k].slot is None by {
                        if released@.contains(x) {
                            let a = choose|a: int| 0 <= a < released@.len() && released@[a] == x;
                            if a < rel_before.len() {
                                assert(rel_before[a] == x);
                                assert(rel_before.contains(x));
                            } else {
                                assert(before[i as int].id == x);
                            }
                        }
                        if exists|k: int|
                            0 <= k < i + 1 && (#[trigger] before[k]).id == x
                                && before[k].slot is None {
                            let k = choose|k: int|
                                0 <= k < i + 1 && (#[trigger] before[k]).id == x
                                    && before[k].slot is None;
                            if k < i {
                                assert(rel_before.contains(x));
                                let a = choose|a: int|
                                    0 <= a < rel_before.len() && rel_before[a] == x;
                                assert(released@[a] == x);
                            } else {
                                assert(released@[rel_before.len() as int] == x);
                            }
                        }
                    }
                    assert forall|a: int, b: int|
                        0 <= a < b < released@.len() implies released@[a] < released@[b] by {
                        if b == rel_before.len() {
                            assert(rel_before[a] <= before[i - 1].id);
                            assert(before[i - 1].id < before[i as int].id);
                        }
                    }
                }
            } else {
                proof {
                    assert forall|x: u64| released@.contains(x) <==> exists|k: int|
                        0 <= k < i + 1 && (#[trigger] before[k]).id == x
                            && before[k].slot is None by {
                        if exists|k: int|
                            0 <= k < i + 1 && (#[trigger] before[k]).id == x
                                && before[k].slot is None {
                            let k = choose|k: int|
                                0 <= k < i + 1 && (#[trigger] before[k]).id == x
                                    && before[k].slot is None;
                            assert(k < i);
                        }
                    }
                    assert forall|a: int| 0 <= a < released@.len() implies (#[trigger] released@[a])
                        <= before[i as int].id by {
                        assert(released@[a] <= before[i - 1].id);
                        assert(before[i - 1].id < before[i as int].id);
                    }
                }
            }
            i += 1;
        }
        proof {
            let after = self.entries@;
            assert forall|id: u64| has_id(after, id) == has_id(before, id) by {
                if has_id(after, id) {
                    let k = index_of(after, id);
                    assert(before[k].id == id);
                }
                if has_id(before, id) {
                    let k = index_of(before, id);
                    assert(after[k].id == id);
                }
            }
            assert(ascending(after)) by {
                assert forall|a: int, b: int| 0 <= a < b < after.len() implies (#[trigger] after[a]).id
                    < (#[trigger] after[b]).id by {
                    assert(before[a].id < before[b].id);
                }
            }
            assert forall|id: u64| has_id(before, id) implies #[trigger] entries_map(after)[id]
                == old(self)@.drain(error@).entries[id] by {
                let k = index_of(before, id);
                lemma_entry_at(before, k);
                assert(after[k].id == id);
                lemma_entry_at(after, k);
            }
            assert(final(self)@.entries =~= old(self)@.drain(error@).entries);
            assert forall|id: u64| released@.contains(id) <==> old(self)@.is_waiting(id) by {
                if released@.contains(id) {
                    let k = choose|k: int|
                        0 <= k < before.len() && (#[trigger] before[k]).id == id
                            && before[k].slot is None;
                    lemma_entry_at(before, k);
                }
                if old(self)@.is_waiting(id) {
                    let k = index_of(before, id);
                    lemma_entry_at(before, k);
                    assert(before[k].id == id && before[k].slot is None);
                }
            }
        }
        released
    }
}

/// The failure for an id without an entry to complete or to take.
fn missing(id: u64) -> (r: UnicomError)
    ensures
        r@ == not_found(id),
{
    let mut description = String::from_str("pending request not found ");
    let digits = decimal(id);
    description.append(digits.as_str());
    UnicomError { kind: UnicomErrorKind::NotFound, description }
}

proof fn lemma_update_slot(entries: Seq<PendingEntry>, i: int, slot: Option<Outcome>)
    requires
        ascending(entries),
        0 <= i < entries.len(),
    ensures
        ascending(entries.update(i, PendingEntry { id: entries[i].id, slot })),
        entries_map(entries.update(i, PendingEntry { id: entries[i].id, slot })) == entries_map(
            entries,
        ).insert(entries[i].id, slot_view(slot)),
{
    let id = entries[i].id;
    let after = entries.update(i, PendingEntry { id, slot });
    assert forall|a: int, b: int| 0 <= a < b < after.len() implies (#[trigger] after[a]).id < (
    #[trigger] after[b]).id by {
        assert(entries[a].id < entries[b].id);
    }
    assert forall|k: u64| has_id(after, k) == has_id(entries, k) by {
        if has_id(after, k) {
            let j = index_of(after, k);
            assert(entries[j].id == k);
        }
        if has_id(entries, k) {
            let j = index_of(entries, k);
            assert(after[j].id == k);
        }
    }
    lemma_entry_at(entries, i);
    assert forall|k: u64| has_id(after, k) implies #[trigger] entries_map(after)[k] == entries_map(
        entries,
    ).insert(id, slot_view(slot))[k] by {
        let j = index_of(after, k);
        lemma_entry_at(after, j);
        if j != i {
            assert(after[j] == entries[j]);
            lemma_entry_at(entries, j);
        }
    }
    assert(entries_map(after) =~= entries_map(entries).insert(id, slot_view(slot)));
}

proof fn lemma_remove_entry(entries: Seq<PendingEntry>, i: int)
    requires
        ascending(entries),
        0 <= i < entries.len(),
    ensures
        ascending(entries.remove(i)),
        entries_map(entries.remove(i)) == entries_map(entries).remove(entries[i].id),
{
    let id = entries[i].id;
    let after = entries.remove(i);
    assert forall|a: int, b: int| 0 <= a < b < after.len() implies (#[trigger] after[a]).id < (
    #[trigger] after[b]).id by {
        let a0 = if a < i { a } else { a + 1 };
        let b0 = if b < i { b } else { b + 1 };
        assert(after[a] == entries[a0]);
        assert(after[b] == entries[b0]);
        assert(entries[a0].id < entries[b0].id);
    }
    assert forall|k: u64| has_id(after, k) == (has_id(entries, k) && k != id) by {
        if has_id(after, k) {
            let j = index_of(after, k);
            let j0 = if j < i { j } else { j + 1 };
            assert(after[j] == entries[j0]);
            assert(entries[j0].id == k);
            if j0 < i {
                assert(entries[j0].id < entries[i].id);
            } else {
                assert(entries[i].id < entries[j0].id);
            }
        }
        if has_id(entries, k) && k != id {
            let j = index_of(entries, k);
            let j1 = if j < i { j } else { j - 1 };
            assert(after[j1] == entries[j]);
            assert(after[j1].id == k);
        }
    }
    assert forall|k: u64| has_id(after, k) implies #[trigger] entries_map(after)[k] == entries_map(
        entries,
    ).remove(id)[k] by {
        let j = index_of(after, k);
        lemma_entry_at(after, j);
        let j0 = if j < i { j } else { j + 1 };
        assert(after[j] == entries[j0]);
        lemma_entry_at(entries, j0);
    }
    assert(entries_map(after) =~= entries_map(entries).remove(id));
}

proof fn lemma_domain_len(entries: Seq<PendingEntry>)
    requires
        ascending(entries),
    ensures
        entries_map(entries).dom().finite(),
        entries_map(entries).dom().len() == entries.len(),
    decreases entries.len(),
{
    if entries.len() == 0 {
        assert(entries_map(entries).dom() =~= Set::<u64>::empty());
    } else {
        let i = entries.len() - 1;
        let front = entries.remove(i);
        lemma_remove_entry(entries, i);
        lemma_domain_len(front);
        lemma_entry_at(entries, i);
        assert(entries_map(entries).dom() =~= entries_map(front).dom().insert(entries[i].id));
    }
}

} // verus!
