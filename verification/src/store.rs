//! A table of documents held in memory: what each row operation does to
//! the rows, stated once and runnable without a database.

use crate::document::DocumentRow;
use crate::manager::{RowOp, StoreOutcome};
use crate::timestamp::{lemma_window_covers_days, resolved};
use crate::timestamp::{Timestamp, Window};
use vstd::prelude::*;
use vstd::string::StringExecFns;

verus! {

/// The later of two instants; the second where they are the same.
pub open spec fn later(a: Timestamp, b: Timestamp) -> Timestamp {
    if a.instant() <= b.instant() {
        b
    } else {
        a
    }
}

/// The rows of the store in the order they were inserted, and the clock
/// that stamps them. The clock never runs backwards.
pub struct Table {
    rows: Vec<DocumentRow>,
    clock: Timestamp,
}

/// The rows and the clock of a [`Table`].
pub struct TableView {
    pub rows: Seq<DocumentRow>,
    pub clock: Timestamp,
}

/// What the store answers to a row operation.
#[derive(Debug, PartialEq, Eq)]
pub enum StoreReply {
    /// The answer to an operation on one row.
    One(StoreOutcome),
    /// The rows that a range selection found, oldest first.
    Many(Vec<DocumentRow>),
}

impl View for Table {
    type V = TableView;

    closed spec fn view(&self) -> TableView {
        TableView { rows: self.rows@, clock: self.clock }
    }
}

impl TableView {
    /// Whether the table is in order: no identity occurs twice, no row was
    /// updated before it was created or after the clock's present, and
    /// rows created earlier come first.
    pub open spec fn wf(self) -> bool {
        &&& forall|i: int, j: int|
            0 <= i < j < self.rows.len() ==> (#[trigger] self.rows[i]).id != (#[trigger] self.rows[j]).id
        &&& forall|i: int|
            0 <= i < self.rows.len() ==> (#[trigger] self.rows[i]).created_at.instant()
                <= self.rows[i].updated_at.instant() <= self.clock.instant()
        &&& forall|i: int, j: int|
            0 <= i <= j < self.rows.len() ==> (#[trigger] self.rows[i]).created_at.instant() <= (
            #[trigger] self.rows[j]).created_at.instant()
    }

    /// Whether a row has the identity.
    pub open spec fn has(self, id: u128) -> bool {
        exists|i: int| 0 <= i < self.rows.len() && (#[trigger] self.rows[i]).id == id
    }

    /// The place of the row with the identity, where there is one.
    pub open spec fn position(self, id: u128) -> int {
        choose|i: int| 0 <= i < self.rows.len() && (#[trigger] self.rows[i]).id == id
    }

    /// The row with the identity, if there is one.
    pub open spec fn get(self, id: u128) -> Option<DocumentRow> {
        if self.has(id) {
            Some(self.rows[self.position(id)])
        } else {
            None
        }
    }

    /// The table after an insert at time `now` under the identity `id`,
    /// with the row that was persisted: both instants of the new row are
    /// the clock's reading. Nothing where the identity is taken.
    pub open spec fn inserted(self, user_id: u128, data: String, id: u128, now: Timestamp) -> Option<
        (TableView, DocumentRow),
    > {
        if self.has(id) {
            None
        } else {
            let clock = later(self.clock, now);
            let row = DocumentRow { id, user_id, data, created_at: clock, updated_at: clock };
            Some((TableView { rows: self.rows.push(row), clock }, row))
        }
    }

    /// The table after the payload of row `id` was replaced at time `now`,
    /// with the row as it then stands: the payload is the new one, the
    /// update instant is the clock's reading, all else is as it was.
    /// Nothing where no row has the identity.
    pub open spec fn updated(self, id: u128, data: String, now: Timestamp) -> Option<
        (TableView, DocumentRow),
    > {
        if self.has(id) {
            let at = self.position(id);
            let clock = later(self.clock, now);
            let row = DocumentRow { data, updated_at: clock, ..self.rows[at] };
            Some((TableView { rows: self.rows.update(at, row), clock }, row))
        } else {
            None
        }
    }

    /// The table after row `id` was removed, with the row's last state.
    /// Nothing where no row has the identity.
    pub open spec fn deleted(self, id: u128) -> Option<(TableView, DocumentRow)> {
        if self.has(id) {
            let at = self.position(id);
            Some((TableView { rows: self.rows.remove(at), ..self }, self.rows[at]))
        } else {
            None
        }
    }

    /// The owner's rows created within the window, in the table's order.
    pub open spec fn selected(self, user_id: u128, window: Window) -> Seq<DocumentRow> {
        self.rows.filter(|row: DocumentRow| row.user_id == user_id && window.holds(row.created_at))
    }
}

/// The place that `position` gives is the only place of the identity.
pub proof fn lemma_position(table: TableView, id: u128, at: int)
    requires
        table.wf(),
        0 <= at < table.rows.len(),
        table.rows[at].id == id,
    ensures
        table.has(id),
        table.position(id) == at,
        table.get(id) == Some(table.rows[at]),
{
    let p = table.position(id);
    if p < at {
        assert(table.rows[p].id != table.rows[at].id);
    } else if at < p {
        assert(table.rows[at].id != table.rows[p].id);
    }
}


impl TableView {
    /// Whether `after` and `outcome` are what an insert makes of the table:
    /// the persisted row, or a failure of the store that changes nothing
    /// where the identity is taken.
    pub open spec fn insert_post(
        self,
        after: TableView,
        outcome: StoreOutcome,
        user_id: u128,
        data: String,
        id: u128,
        now: Timestamp,
    ) -> bool {
        match self.inserted(user_id, data, id, now) {
            Some((table, row)) => after == table && outcome == StoreOutcome::Row(row),
            None => {
                &&& after == self
                &&& outcome matches StoreOutcome::Failed(text)
                &&& text@ == "duplicate key value violates unique constraint"@
            },
        }
    }

    /// Whether `after` and `outcome` are what an update makes of the table:
    /// the row as it then stands, or no row and no change.
    pub open spec fn update_post(
        self,
        after: TableView,
        outcome: StoreOutcome,
        id: u128,
        data: String,
        now: Timestamp,
    ) -> bool {
        match self.updated(id, data, now) {
            Some((table, row)) => after == table && outcome == StoreOutcome::Row(row),
            None => after == self && outcome == StoreOutcome::NoRow,
        }
    }

    /// Whether `after` and `outcome` are what a delete makes of the table:
    /// the last state of the row, or no row and no change.
    pub open spec fn delete_post(self, after: TableView, outcome: StoreOutcome, id: u128) -> bool {
        match self.deleted(id) {
            Some((table, row)) => after == table && outcome == StoreOutcome::Row(row),
            None => after == self && outcome == StoreOutcome::NoRow,
        }
    }

    /// Whether `outcome` is what a fetch by identity finds in the table.
    pub open spec fn select_post(self, outcome: StoreOutcome, id: u128) -> bool {
        match self.get(id) {
            Some(row) => outcome == StoreOutcome::Row(row),
            None => outcome == StoreOutcome::NoRow,
        }
    }

    /// Whether `after` and `reply` are what the table makes of `op` at
    /// time `now`, an insert going under the identity `id`.
    pub open spec fn execute_post(self, after: TableView, reply: StoreReply, op: RowOp, id: u128, now: Timestamp) -> bool {
        match op {
            RowOp::Insert { user_id, data } => reply matches StoreReply::One(outcome)
                && self.insert_post(after, outcome, user_id, data, id, now),
            RowOp::Update { id: target, data } => reply matches StoreReply::One(outcome)
                && self.update_post(after, outcome, target, data, now),
            RowOp::Delete { id: target } => reply matches StoreReply::One(outcome) && self.delete_post(
                after,
                outcome,
                target,
            ),
            RowOp::Select { id: target } => reply matches StoreReply::One(outcome) && after == self
                && self.select_post(outcome, target),
            RowOp::SelectRange { user_id, window } => reply matches StoreReply::Many(rows) && after
                == self && rows@ == self.selected(user_id, window),
        }
    }
}

/// The later of two instants; the second where they are the same.
fn later_of(a: Timestamp, b: Timestamp) -> (t: Timestamp)
    ensures
        t == later(a, b),
{
    if a.not_after(&b) {
        b
    } else {
        a
    }
}

/// A second row with the same fields.
fn copy_of(row: &DocumentRow) -> (copy: DocumentRow)
    ensures
        copy == *row,
{
    DocumentRow {
        id: row.id,
        user_id: row.user_id,
        data: row.data.clone(),
        created_at: row.created_at,
        updated_at: row.updated_at,
    }
}

impl Table {
    /// Whether the table is in order.
    pub open spec fn wf(&self) -> bool {
        self@.wf()
    }

    /// An empty table whose clock stands at the Unix epoch.
    pub fn new() -> (table: Table)
        ensures
            table.wf(),
            table@.rows.len() == 0,
            table@.clock == (Timestamp { seconds: 0, nanos: 0 }),
    {
        Table { rows: Vec::new(), clock: Timestamp { seconds: 0, nanos: 0 } }
    }

    /// Number of rows in the table.
    pub fn len(&self) -> (n: usize)
        ensures
            n == self@.rows.len(),
    {
        self.rows.len()
    }

    /// The place of the row with the identity, if there is one.
    fn find(&self, id: u128) -> (at: Option<usize>)
        requires
            self.wf(),
        ensures
            match at {
                Some(i) => i < self@.rows.len() && self@.rows[i as int].id == id && self@.has(id)
                    && self@.position(id) == i,
                None => !self@.has(id),
            },
    {
        let mut i: usize = 0;
        while i < self.rows.len()
            invariant
                self.wf(),
                i <= self.rows.len(),
                forall|k: int| 0 <= k < i ==> (#[trigger] self@.rows[k]).id != id,
            decreases self.rows.len() - i,
        {
            if self.rows[i].id == id {
                proof {
                    lemma_position(self@, id, i as int);
                }
                return Some(i);
            }
            i += 1;
        }
        None
    }

    /// Inserts a row for the owner with the payload at time `now`, under
    /// the identity `id` that the store picked for it.
    pub fn insert(&mut self, user_id: u128, data: String, id: u128, now: Timestamp) -> (outcome: StoreOutcome)
        requires
            old(self).wf(),
        ensures
            final(self).wf(),
            old(self)@.insert_post(final(self)@, outcome, user_id, data, id, now),
    {
        match self.find(id) {
            Some(_) => StoreOutcome::Failed(String::from_str("duplicate key value violates unique constraint")),
            None => {
                let clock = later_of(self.clock, now);
                let row = DocumentRow { id, user_id, data, created_at: clock, updated_at: clock };
                let copy = copy_of(&row);
                self.rows.push(row);
                self.clock = clock;
                StoreOutcome::Row(copy)
            },
        }
    }

    /// Replaces the payload of row `id` at time `now`.
    pub fn update(&mut self, id: u128, data: String, now: Timestamp) -> (outcome: StoreOutcome)
        requires
            old(self).wf(),
        ensures
            final(self).wf(),
            old(self)@.update_post(final(self)@, outcome, id, data, now),
    {
        match self.find(id) {
            None => StoreOutcome::NoRow,
            Some(at) => {
                let clock = later_of(self.clock, now);
                let row = DocumentRow {
                    id: self.rows[at].id,
                    user_id: self.rows[at].user_id,
                    data,
                    created_at: self.rows[at].created_at,
                    updated_at: clock,
                };
                let copy = copy_of(&row);
                self.rows.set(at, row);
                self.clock = clock;
                StoreOutcome::Row(copy)
            },
        }
    }

    /// Removes row `id` and hands back its last state.
    pub fn delete(&mut self, id: u128) -> (outcome: StoreOutcome)
        requires
            old(self).wf(),
        ensures
            final(self).wf(),
            old(self)@.delete_post(final(self)@, outcome, id),
    {
        match self.find(id) {
            None => StoreOutcome::NoRow,
            Some(at) => {
                let row = self.rows.remove(at);
                StoreOutcome::Row(row)
            },
        }
    }

    /// Fetches row `id`.
    pub fn select(&self, id: u128) -> (outcome: StoreOutcome)
        requires
            self.wf(),
        ensures
            self@.select_post(outcome, id),
    {
        match self.find(id) {
            None => StoreOutcome::NoRow,
            Some(at) => StoreOutcome::Row(copy_of(&self.rows[at])),
        }
    }

    /// Fetches the owner's rows created within the window, oldest first.
    pub fn select_range(&self, user_id: u128, window: &Window) -> (found: Vec<DocumentRow>)
        requires
            self.wf(),
        ensures
            found@ == self@.selected(user_id, *window),
    {
        let ghost pred = |row: DocumentRow| row.user_id == user_id && window.holds(row.created_at);
        let mut found: Vec<DocumentRow> = Vec::new();
        let mut i: usize = 0;
        proof {
            reveal(Seq::filter);
            assert(self.rows@.take(0).filter(pred) =~= Seq::<DocumentRow>::empty());
        }
        while i < self.rows.len()
            invariant
                i <= self.rows.len(),
                pred == (|row: DocumentRow| row.user_id == user_id && window.holds(row.created_at)),
                found@ == self.rows@.take(i as int).filter(pred),
            decreases self.rows.len() - i,
        {
            proof {
                reveal(Seq::filter);
                assert(self.rows@.take(i + 1).drop_last() =~= self.rows@.take(i as int));
                assert(self.rows@.take(i + 1).last() == self.rows@[i as int]);
            }
            if self.rows[i].user_id == user_id && window.contains(&self.rows[i].created_at) {
                found.push(copy_of(&self.rows[i]));
            }
            i += 1;
        }
        proof {
            assert(self.rows@.take(i as int) =~= self.rows@);
        }
        found
    }

    /// Does what `op` asks at time `now`; an insert goes under the
    /// identity `id`.
    pub fn execute(&mut self, op: RowOp, id: u128, now: Timestamp) -> (reply: StoreReply)
        requires
            old(self).wf(),
        ensures
            final(self).wf(),
            old(self)@.execute_post(final(self)@, reply, op, id, now),
    {
        match op {
            RowOp::Insert { user_id, data } => StoreReply::One(self.insert(user_id, data, id, now)),
            RowOp::Update { id: target, data } => StoreReply::One(self.update(target, data, now)),
            RowOp::Delete { id: target } => StoreReply::One(self.delete(target)),
            RowOp::Select { id: target } => StoreReply::One(self.select(target)),
            RowOp::SelectRange { user_id, window } => StoreReply::Many(self.select_range(user_id, &window)),
        }
    }
}


/// An insert under a free identity leaves the table in order and the new
/// row findable by its identity.
pub proof fn lemma_inserted(table: TableView, user_id: u128, data: String, id: u128, now: Timestamp)
    requires
        table.wf(),
        !table.has(id),
    ensures
        table.inserted(user_id, data, id, now) matches Some((after, row)) && after.wf() && after.get(id)
            == Some(row) && after.clock.instant() >= table.clock.instant(),
{
    let (after, row) = table.inserted(user_id, data, id, now)->0;
    lemma_position(after, id, table.rows.len() as int);
}

/// An update of a row that is there leaves the table in order, the row in
/// its place and as the update left it.
pub proof fn lemma_updated(table: TableView, id: u128, data: String, now: Timestamp)
    requires
        table.wf(),
        table.has(id),
    ensures
        table.updated(id, data, now) matches Some((after, row)) && after.wf() && after.get(id) == Some(
            row,
        ) && after.clock == row.updated_at && after.clock.instant() >= table.clock.instant()
            && after.rows.len() == table.rows.len(),
{
    let (after, row) = table.updated(id, data, now)->0;
    lemma_position(after, id, table.position(id));
}

/// A delete of a row that is there hands back the row as it last stood,
/// leaves the table in order and the identity without a row.
pub proof fn lemma_deleted(table: TableView, id: u128)
    requires
        table.wf(),
        table.has(id),
    ensures
        table.deleted(id) matches Some((after, row)) && after.wf() && table.get(id) == Some(row)
            && !after.has(id) && after.rows.len() + 1 == table.rows.len(),
{
    let (after, row) = table.deleted(id)->0;
    let at = table.position(id);
    assert forall|i: int| 0 <= i < after.rows.len() implies (#[trigger] after.rows[i]).id != id by {
        if i < at {
            assert(table.rows[i].id != table.rows[at].id);
        } else {
            assert(table.rows[at].id != table.rows[i + 1].id);
        }
    }
}

/// Round trip: a document created for an owner with a payload and then
/// fetched by the identity it was given is the document that was created;
/// its owner and payload are the ones asked for, and it was not updated
/// before it was created.
pub proof fn lemma_create_then_get(
    table: TableView,
    user_id: u128,
    data: String,
    id: u128,
    now: Timestamp,
    created: TableView,
    first: StoreReply,
    fetched: TableView,
    second: StoreReply,
    later_id: u128,
    later_now: Timestamp,
)
    requires
        table.wf(),
        table.execute_post(created, first, RowOp::Insert { user_id, data }, id, now),
        first matches StoreReply::One(StoreOutcome::Row(row)) && created.execute_post(
            fetched,
            second,
            RowOp::Select { id: row.id },
            later_id,
            later_now,
        ),
    ensures
        second == first,
        first matches StoreReply::One(StoreOutcome::Row(row)) && row.user_id == user_id && row.data == data
            && row.created_at.instant() <= row.updated_at.instant(),
{
    lemma_inserted(table, user_id, data, id, now);
}

/// A second update with the same payload: the document still has that
/// payload, and its update instant is not before that of the first update.
pub proof fn lemma_update_twice(
    table: TableView,
    id: u128,
    data: String,
    now: Timestamp,
    once: TableView,
    first: StoreReply,
    again: Timestamp,
    twice: TableView,
    second: StoreReply,
)
    requires
        table.wf(),
        table.execute_post(once, first, RowOp::Update { id, data }, 0, now),
        first matches StoreReply::One(StoreOutcome::Row(_)),
        once.execute_post(twice, second, RowOp::Update { id, data }, 0, again),
    ensures
        first matches StoreReply::One(StoreOutcome::Row(a)) && second matches StoreReply::One(
            StoreOutcome::Row(b),
        ) && b.data == data && a.data == data && b.id == id && b.user_id == a.user_id && b.created_at
            == a.created_at && a.updated_at.instant() <= b.updated_at.instant(),
{
    lemma_updated(table, id, data, now);
    lemma_updated(once, id, data, again);
}

/// An identity that no row has is not found: an update, a delete and a
/// fetch each answer with no row, never with a failure of the store, and
/// leave the table as it was.
pub proof fn lemma_missing_has_no_row(
    table: TableView,
    id: u128,
    data: String,
    now: Timestamp,
    after: TableView,
    reply: StoreReply,
    op: RowOp,
)
    requires
        !table.has(id),
        op == (RowOp::Update { id, data }) || op == (RowOp::Delete { id }) || op == (RowOp::Select { id }),
        table.execute_post(after, reply, op, 0, now),
    ensures
        reply == StoreReply::One(StoreOutcome::NoRow),
        after == table,
{
}

/// Query window inclusion: with both bounds given, the rows selected are
/// exactly the owner's rows created on the start day, on the end day or
/// on a day between them; the whole end day is in, every later day out.
pub proof fn lemma_selected_days(
    table: TableView,
    user_id: u128,
    start: Timestamp,
    end: Timestamp,
    now: Timestamp,
    row: DocumentRow,
)
    ensures
        table.selected(user_id, resolved(Some(start), Some(end), now)).contains(row) <==> (
        table.rows.contains(row) && row.user_id == user_id && start.day() <= row.created_at.day()
            <= end.day()),
{
    let window = resolved(Some(start), Some(end), now);
    let pred = |row: DocumentRow| row.user_id == user_id && window.holds(row.created_at);
    let found = table.rows.filter(pred);
    lemma_window_covers_days(start, end, now, row.created_at);
    if found.contains(row) {
        table.rows.lemma_filter_contains_rev(pred, row);
        let i = choose|i: int| 0 <= i < found.len() && found[i] == row;
        table.rows.lemma_filter_pred(pred, i);
    }
    if table.rows.contains(row) && pred(row) {
        let i = choose|i: int| 0 <= i < table.rows.len() && table.rows[i] == row;
        table.rows.lemma_filter_contains(pred, i);
    }
}

/// The rows that a range selection finds come oldest first.
pub proof fn lemma_selected_in_order(table: TableView, user_id: u128, window: Window, i: int, j: int)
    requires
        table.wf(),
        0 <= i <= j < table.selected(user_id, window).len(),
    ensures
        table.selected(user_id, window)[i].created_at.instant() <= table.selected(
            user_id,
            window,
        )[j].created_at.instant(),
{
    let pred = |row: DocumentRow| row.user_id == user_id && window.holds(row.created_at);
    lemma_filter_keeps_order(table.rows, pred, i, j);
}

/// Filtering rows that come oldest first leaves them oldest first.
proof fn lemma_filter_keeps_order(rows: Seq<DocumentRow>, pred: spec_fn(DocumentRow) -> bool, i: int, j: int)
    requires
        forall|a: int, b: int|
            0 <= a <= b < rows.len() ==> (#[trigger] rows[a]).created_at.instant() <= (
            #[trigger] rows[b]).created_at.instant(),
        0 <= i <= j < rows.filter(pred).len(),
    ensures
        rows.filter(pred)[i].created_at.instant() <= rows.filter(pred)[j].created_at.instant(),
    decreases rows.len(),
{
    reveal(Seq::filter);
    if rows.len() > 0 {
        let rest = rows.drop_last();
        let found = rest.filter(pred);
        assert forall|a: int, b: int| 0 <= a <= b < rest.len() implies (#[trigger] rest[a]).created_at.instant()
            <= (#[trigger] rest[b]).created_at.instant() by {
            assert(rest[a] == rows[a] && rest[b] == rows[b]);
        }
        if j < found.len() {
            lemma_filter_keeps_order(rest, pred, i, j);
        } else if i < found.len() {
            assert(found.contains(found[i]));
            rest.lemma_filter_contains_rev(pred, found[i]);
            let k = choose|k: int| 0 <= k < rest.len() && rest[k] == found[i];
            assert(rows[k] == found[i]);
            assert(rows[k].created_at.instant() <= rows[rows.len() - 1].created_at.instant());
        }
    }
}

} // verus!
