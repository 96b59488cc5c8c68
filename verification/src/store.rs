//! The task table: what the four operations of the store do to its rows.

use crate::command::{Command, CommandView, Reply, ReplyView};
use crate::task::{task_views, Task, TaskView};
use crate::timestamp::{Moment, Timestamp};
use vstd::prelude::*;

verus! {

/// Why the table could not carry out a command.
#[derive(Clone, Copy, Debug, PartialEq, Eq)]
pub enum StoreError {
    /// Every id that a task can have has been given out.
    OutOfIds,
}

/// How many of the first rows are newer than `now`.
pub open spec fn newer_rows(rows: Seq<TaskView>, now: Moment) -> nat
    decreases rows.len(),
{
    if rows.len() > 0 && rows[0].created_at.is_after(now) {
        1 + newer_rows(rows.drop_first(), now)
    } else {
        0
    }
}

/// `row` marked as completed.
pub open spec fn completed_row(row: TaskView) -> TaskView {
    TaskView { completed: true, ..row }
}

/// The mathematical value of a [`TaskTable`]: its rows, newest first, and
/// the last id that it has given out.
pub struct TableView {
    pub rows: Seq<TaskView>,
    pub last_id: int,
}

impl TableView {
    /// What holds of every table: ids are positive, unique and no greater
    /// than the last one given out; no description is empty; every creation
    /// time is valid; and the rows stand newest first.
    pub open spec fn is_valid(self) -> bool {
        &&& 0 <= self.last_id <= i32::MAX
        &&& forall|i: int|
            0 <= i < self.rows.len() ==> {
                &&& 1 <= (#[trigger] self.rows[i]).id <= self.last_id
                &&& self.rows[i].description.len() > 0
                &&& self.rows[i].created_at.is_valid()
            }
        &&& forall|i: int, j: int|
            0 <= i < j < self.rows.len() ==> (#[trigger] self.rows[i]).id != (
            #[trigger] self.rows[j]).id
        &&& forall|i: int, j: int|
            0 <= i < j < self.rows.len() ==> !(#[trigger] self.rows[j]).created_at.is_after(
                (#[trigger] self.rows[i]).created_at,
            )
    }

    /// The table without rows that has given out no id.
    pub open spec fn empty() -> TableView {
        TableView { rows: Seq::empty(), last_id: 0 }
    }

    /// Whether a row has this id.
    pub open spec fn holds(self, id: int) -> bool {
        exists|i: int| 0 <= i < self.rows.len() && (#[trigger] self.rows[i]).id == id
    }

    /// How many rows have this id.
    pub open spec fn matching(self, id: int) -> nat {
        self.rows.filter(|row: TaskView| row.id == id).len()
    }

    /// Whether an id is left for a new row.
    pub open spec fn can_insert(self) -> bool {
        self.last_id < i32::MAX
    }

    /// The row that an insertion adds: the next id, not completed.
    pub open spec fn new_row(self, description: Seq<char>, now: Moment) -> TaskView {
        TaskView { id: self.last_id + 1, description, completed: false, created_at: now }
    }

    /// The table after a row with this description was inserted at `now`:
    /// the new row stands behind the rows that are newer than it.
    pub open spec fn inserted(self, description: Seq<char>, now: Moment) -> TableView {
        TableView {
            rows: self.rows.insert(
                newer_rows(self.rows, now) as int,
                self.new_row(description, now),
            ),
            last_id: self.last_id + 1,
        }
    }

    /// The table after every row with this id was marked as completed.
    pub open spec fn completed(self, id: int) -> TableView {
        TableView {
            rows: self.rows.map_values(
                |row: TaskView|
                    if row.id == id {
                        completed_row(row)
                    } else {
                        row
                    },
            ),
            last_id: self.last_id,
        }
    }

    /// The table after every row with this id was removed.
    pub open spec fn deleted(self, id: int) -> TableView {
        TableView { rows: self.rows.filter(|row: TaskView| row.id != id), last_id: self.last_id }
    }

    /// Whether the table can carry out `command`: every command but an
    /// insertion for which no id is left.
    pub open spec fn accepts(self, command: CommandView) -> bool {
        command is Insert ==> self.can_insert()
    }

    /// The table after `command`, carried out at `now`. A command that the
    /// table cannot carry out changes nothing.
    pub open spec fn after(self, command: CommandView, now: Moment) -> TableView {
        match command {
            CommandView::Insert { description } => if self.can_insert() {
                self.inserted(description, now)
            } else {
                self
            },
            CommandView::ListOrdered => self,
            CommandView::UpdateCompleted { id } => self.completed(id),
            CommandView::Delete { id } => self.deleted(id),
        }
    }

    /// What the table answers to `command` when it carries it out.
    pub open spec fn reply(self, command: CommandView) -> ReplyView {
        match command {
            CommandView::Insert { .. } => ReplyView::RowsAffected(1),
            CommandView::ListOrdered => ReplyView::Rows(self.rows),
            CommandView::UpdateCompleted { id } => ReplyView::RowsAffected(self.matching(id) as int),
            CommandView::Delete { id } => ReplyView::RowsAffected(self.matching(id) as int),
        }
    }
}

/// A filter that no element passes leaves nothing.
proof fn lemma_filter_none<A>(s: Seq<A>, pred: spec_fn(A) -> bool)
    requires
        forall|i: int| 0 <= i < s.len() ==> !pred(#[trigger] s[i]),
    ensures
        s.filter(pred) == Seq::<A>::empty(),
    decreases s.len(),
{
    reveal(Seq::filter);
    if s.len() > 0 {
        let front = s.drop_last();
        lemma_filter_none(front, pred);
    }
}

/// A filter that every element passes leaves everything.
proof fn lemma_filter_all<A>(s: Seq<A>, pred: spec_fn(A) -> bool)
    requires
        forall|i: int| 0 <= i < s.len() ==> pred(#[trigger] s[i]),
    ensures
        s.filter(pred) == s,
    decreases s.len(),
{
    reveal(Seq::filter);
    if s.len() > 0 {
        let front = s.drop_last();
        lemma_filter_all(front, pred);
    }
}

/// Where exactly the element at `i` passes `keep` and exactly the others
/// pass `drop`, the one filter leaves that element and the other removes it.
proof fn lemma_filter_split<A>(s: Seq<A>, keep: spec_fn(A) -> bool, drop: spec_fn(A) -> bool, i: int)
    requires
        0 <= i < s.len(),
        keep(s[i]),
        !drop(s[i]),
        forall|j: int| 0 <= j < s.len() && j != i ==> !keep(#[trigger] s[j]) && drop(s[j]),
    ensures
        s.filter(keep) == seq![s[i]],
        s.filter(drop) == s.remove(i),
{
    let before = s.take(i);
    let one = seq![s[i]];
    let after = s.skip(i + 1);
    assert(s =~= before + (one + after));
    lemma_filter_none(before, keep);
    lemma_filter_none(after, keep);
    lemma_filter_all(before, drop);
    lemma_filter_all(after, drop);
    assert(one.filter(keep) =~= one && one.filter(drop) =~= Seq::<A>::empty()) by {
        reveal_with_fuel(Seq::filter, 2);
    }
}

/// A command on an id that no row has touches no row and changes nothing.
pub proof fn lemma_absent_id(table: TableView, id: int)
    requires
        !table.holds(id),
    ensures
        table.matching(id) == 0,
        table.completed(id) == table,
        table.deleted(id) == table,
{
    let rows = table.rows;
    lemma_filter_none(rows, |row: TaskView| row.id == id);
    lemma_filter_all(rows, |row: TaskView| row.id != id);
    assert(table.completed(id).rows =~= rows);
}

/// A command on the id of the row at `i` touches that row and no other.
pub proof fn lemma_present_id(table: TableView, id: int, i: int)
    requires
        table.is_valid(),
        0 <= i < table.rows.len(),
        table.rows[i].id == id,
    ensures
        table.holds(id),
        table.matching(id) == 1,
        table.completed(id).rows == table.rows.update(i, completed_row(table.rows[i])),
        table.deleted(id).rows == table.rows.remove(i),
{
    let rows = table.rows;
    lemma_filter_split(rows, |row: TaskView| row.id == id, |row: TaskView| row.id != id, i);
}

/// The rows that `newer_rows` counts are newer than `now`, and the row
/// behind them is not.
proof fn lemma_newer_rows(rows: Seq<TaskView>, now: Moment)
    ensures
        newer_rows(rows, now) <= rows.len(),
        forall|i: int|
            0 <= i < newer_rows(rows, now) ==> (#[trigger] rows[i]).created_at.is_after(now),
        newer_rows(rows, now) < rows.len() ==> !rows[newer_rows(rows, now) as int].created_at.is_after(
            now,
        ),
    decreases rows.len(),
{
    if rows.len() > 0 && rows[0].created_at.is_after(now) {
        let rest = rows.drop_first();
        lemma_newer_rows(rest, now);
        assert forall|i: int| 0 <= i < newer_rows(rows, now) implies (
        #[trigger] rows[i]).created_at.is_after(now) by {
            if i > 0 {
                assert(rows[i] == rest[i - 1]);
            }
        }
    }
}

/// Inserting keeps a table valid, puts the new row where the listing shows
/// it, and keeps every other row.
pub proof fn lemma_inserted(table: TableView, description: Seq<char>, now: Moment)
    requires
        table.is_valid(),
        table.can_insert(),
        description.len() > 0,
        now.is_valid(),
    ensures
        table.inserted(description, now).is_valid(),
        0 <= newer_rows(table.rows, now) <= table.rows.len(),
        table.inserted(description, now).rows[newer_rows(table.rows, now) as int] == table.new_row(
            description,
            now,
        ),
        table.inserted(description, now).rows.remove(newer_rows(table.rows, now) as int)
            == table.rows,
        !table.holds(table.last_id + 1),
{
    let rows = table.rows;
    lemma_newer_rows(rows, now);
}

/// Marking rows as completed keeps a table valid.
pub proof fn lemma_completed_valid(table: TableView, id: int)
    requires
        table.is_valid(),
    ensures
        table.completed(id).is_valid(),
{
}

/// Removing rows keeps a table valid.
pub proof fn lemma_deleted_valid(table: TableView, id: int)
    requires
        table.is_valid(),
    ensures
        table.deleted(id).is_valid(),
{
    if table.holds(id) {
        let i = choose|i: int| 0 <= i < table.rows.len() && (#[trigger] table.rows[i]).id == id;
        lemma_present_id(table, id, i);
    } else {
        lemma_absent_id(table, id);
    }
}

/// A task table held in memory. It carries out the store's four operations
/// on its own rows.
#[derive(Debug)]
pub struct TaskTable {
    rows: Vec<Task>,
    last_id: i32,
}

impl View for TaskTable {
    type V = TableView;

    closed spec fn view(&self) -> TableView {
        TableView { rows: task_views(self.rows@), last_id: self.last_id as int }
    }
}

impl TaskTable {
    /// Every table is valid.
    #[verifier::type_invariant]
    pub open spec fn well_formed(self) -> bool {
        self@.is_valid()
    }

    /// An empty table.
    pub fn new() -> (table: TaskTable)
        ensures
            table@ == TableView::empty(),
    {
        let table = TaskTable { rows: Vec::new(), last_id: 0 };
        assert(table@.rows =~= Seq::empty());
        table
    }

    /// An empty table that has given out the ids up to `last_id`, for a
    /// `last_id` that is not negative.
    pub fn starting_after(last_id: i32) -> (table: Option<TaskTable>)
        ensures
            table is Some <==> last_id >= 0,
            table matches Some(t) ==> t@ == (TableView {
                rows: Seq::empty(),
                last_id: last_id as int,
            }),
    {
        if last_id < 0 {
            return None;
        }
        let table = TaskTable { rows: Vec::new(), last_id };
        assert(table@.rows =~= Seq::empty());
        Some(table)
    }

    /// The number of rows.
    pub fn len(&self) -> (n: usize)
        ensures
            n == self@.rows.len(),
    {
        self.rows.len()
    }

    /// Takes the rows out of the table, to change them: a table is valid at
    /// every moment, and an empty one is.
    fn take_rows(&mut self) -> (rows: Vec<Task>)
        ensures
            rows == old(self).rows,
            final(self).rows@ == Seq::<Task>::empty(),
            final(self).last_id == old(self).last_id,
    {
        proof {
            use_type_invariant(&*self);
        }
        let mut rows: Vec<Task> = Vec::new();
        core::mem::swap(&mut self.rows, &mut rows);
        rows
    }

    /// The index of the row with this id, if there is one.
    fn position(&self, id: i32) -> (found: Option<usize>)
        ensures
            match found {
                Some(i) => i < self@.rows.len() && self@.rows[i as int].id == id,
                None => !self@.holds(id as int),
            },
    {
        let mut i: usize = 0;
        while i < self.rows.len()
            invariant
                i <= self.rows.len(),
                forall|j: int| 0 <= j < i ==> (#[trigger] self@.rows[j]).id != id,
            decreases self.rows.len() - i,
        {
            if self.rows[i].id == id {
                return Some(i);
            }
            i += 1;
        }
        None
    }

    /// Adds a task with this description, created at `now`, under the next
    /// id, and reports one row affected. Fails, changing nothing, when no id
    /// is left.
    pub fn insert(&mut self, description: String, now: Timestamp) -> (outcome: Result<
        u64,
        StoreError,
    >)
        requires
            description@.len() > 0,
        ensures
            match outcome {
                Ok(n) => {
                    &&& old(self)@.can_insert()
                    &&& n == 1
                    &&& final(self)@ == old(self)@.inserted(description@, now@)
                },
                Err(e) => {
                    &&& !old(self)@.can_insert()
                    &&& e == StoreError::OutOfIds
                    &&& final(self)@ == old(self)@
                },
            },
    {
        proof {
            use_type_invariant(&*self);
            use_type_invariant(&now);
        }
        if self.last_id == i32::MAX {
            return Err(StoreError::OutOfIds);
        }
        let id: i32 = self.last_id + 1;
        let ghost before = self@;
        let mut at: usize = 0;
        assert(before.rows.skip(0) =~= before.rows);
        while at < self.rows.len() && self.rows[at].created_at.is_after(&now)
            invariant
                at <= self.rows.len(),
                self@ == before,
                newer_rows(before.rows, now@) == at + newer_rows(before.rows.skip(at as int), now@),
            decreases self.rows.len() - at,
        {
            proof {
                assert(before.rows.skip(at as int).drop_first() =~= before.rows.skip(at + 1));
            }
            at += 1;
        }
        proof {
            lemma_inserted(before, description@, now@);
        }
        let task = Task { id, description, completed: false, created_at: now };
        let mut rows = self.take_rows();
        rows.insert(at, task);
        assert(task_views(rows@) =~= before.inserted(description@, now@).rows);
        *self = TaskTable { rows, last_id: id };
        Ok(1)
    }

    /// The tasks, newest first.
    pub fn list_ordered(&self) -> (tasks: Vec<Task>)
        ensures
            task_views(tasks@) == self@.rows,
            forall|i: int, j: int|
                0 <= i < j < tasks.len() ==> !(#[trigger] tasks[j]).created_at@.is_after(
                    (#[trigger] tasks[i]).created_at@,
                ),
    {
        proof {
            use_type_invariant(self);
        }
        let mut tasks: Vec<Task> = Vec::new();
        let mut i: usize = 0;
        while i < self.rows.len()
            invariant
                i <= self.rows.len(),
                tasks@.len() == i,
                task_views(tasks@) == self@.rows.take(i as int),
            decreases self.rows.len() - i,
        {
            let ghost listed = tasks@;
            tasks.push(self.rows[i].duplicate());
            i += 1;
        }
        assert(self@.rows.take(i as int) =~= self@.rows);
        assert forall|i: int, j: int| 0 <= i < j < tasks.len() implies !(
        #[trigger] tasks[j]).created_at@.is_after((#[trigger] tasks[i]).created_at@) by {
            assert(tasks[i]@ == self@.rows[i]);
            assert(tasks[j]@ == self@.rows[j]);
        }
        tasks
    }

    /// Marks the task with this id as completed, and reports how many rows
    /// have this id: one, or none.
    pub fn update_completed(&mut self, id: i32) -> (rows_affected: u64)
        ensures
            rows_affected == old(self)@.matching(id as int),
            final(self)@ == old(self)@.completed(id as int),
    {
        proof {
            use_type_invariant(&*self);
        }
        match self.position(id) {
            Some(i) => {
                proof {
                    lemma_present_id(self@, id as int, i as int);
                    lemma_completed_valid(self@, id as int);
                }
                let mut task = self.rows[i].duplicate();
                task.completed = true;
                let last_id = self.last_id;
                let mut rows = self.take_rows();
                rows.set(i, task);
                assert(task_views(rows@) =~= old(self)@.completed(id as int).rows);
                *self = TaskTable { rows, last_id };
                1
            },
            None => {
                proof {
                    lemma_absent_id(self@, id as int);
                }
                0
            },
        }
    }

    /// Removes the task with this id, and reports how many rows had this id:
    /// one, or none.
    pub fn delete(&mut self, id: i32) -> (rows_affected: u64)
        ensures
            rows_affected == old(self)@.matching(id as int),
            final(self)@ == old(self)@.deleted(id as int),
    {
        proof {
            use_type_invariant(&*self);
        }
        match self.position(id) {
            Some(i) => {
                proof {
                    lemma_present_id(self@, id as int, i as int);
                    lemma_deleted_valid(self@, id as int);
                }
                let last_id = self.last_id;
                let mut rows = self.take_rows();
                let _ = rows.remove(i);
                assert(task_views(rows@) =~= old(self)@.deleted(id as int).rows);
                *self = TaskTable { rows, last_id };
                1
            },
            None => {
                proof {
                    lemma_absent_id(self@, id as int);
                }
                0
            },
        }
    }

    /// Carries out `command`, at `now`, and answers it.
    pub fn execute(&mut self, command: &Command, now: Timestamp) -> (outcome: Result<
        Reply,
        StoreError,
    >)
        requires
            command@ matches CommandView::Insert { description } ==> description.len() > 0,
        ensures
            final(self)@ == old(self)@.after(command@, now@),
            match outcome {
                Ok(reply) => old(self)@.accepts(command@) && reply@ == old(self)@.reply(command@),
                Err(e) => !old(self)@.accepts(command@) && e == StoreError::OutOfIds,
            },
    {
        match command {
            Command::Insert { description } => {
                match self.insert(description.clone(), now) {
                    Ok(n) => Ok(Reply::RowsAffected(n)),
                    Err(e) => Err(e),
                }
            },
            Command::ListOrdered => Ok(Reply::Rows(self.list_ordered())),
            Command::UpdateCompleted { id } => Ok(Reply::RowsAffected(self.update_completed(*id))),
            Command::Delete { id } => Ok(Reply::RowsAffected(self.delete(*id))),
        }
    }
}

} // verus!
