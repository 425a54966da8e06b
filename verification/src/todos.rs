//! The todo side of the application: the list shown, the text being typed,
//! the status line, and how each user action changes them.

use vstd::prelude::*;
use crate::db::{
    Database, DbError, SqlAnswer, SqlCall, SqlValue, Todo, counts_at, counting_calls,
    delete_sql, describes, insert_sql, list_sql, rows_as_todos, todos_view, toggle_sql,
};
use crate::text::{trim, trimmed, counter_text, counter_text_spec};

verus! {

/// What the user did in the todo panel.
#[derive(Debug, Clone)]
pub enum TodoMessage {
    /// The text in the input box changed.
    InputChanged(String),
    /// The user asked to add the typed todo.
    AddTodo,
    /// The user ticked or unticked the todo with this id.
    Toggle(i64),
    /// The user asked to delete the todo with this id.
    Delete(i64),
}

/// The state of the todo panel.
pub struct TodoList {
    pub db: Database,
    /// The todos as last read from the database.
    pub todos: Vec<Todo>,
    /// The text in the input box.
    pub input: String,
    /// The last error, if the last database call failed.
    pub status: Option<String>,
}

/// The status line shown after a failed database call: `prefix` followed by
/// the database's own text for the failure.
pub open spec fn failure_text(prefix: Seq<char>, message: Seq<char>) -> Seq<char> {
    prefix + message
}

/// `status` is the failure line for `prefix` and the `rusqlite` error `x`:
/// `prefix` followed by `x`'s `Display` text.
pub open spec fn is_failure_of(status: Option<String>, prefix: Seq<char>, x: rusqlite::Error) -> bool {
    status matches Some(s) && exists|e: DbError|
        describes(e, x) && s@ == #[trigger] failure_text(prefix, e.message@)
}

/// The todo panel `after` once the list was read again, where before the
/// database had seen `calls`, the panel showed `todos` and the input read
/// `input`: exactly the list query was sent next; when it returned rows the
/// panel shows the todos they stand for and no status, and when it failed the
/// todos stay and the status tells of the failure.  The input is `input`.
pub open spec fn listed_from(
    calls: Seq<SqlCall>,
    todos: Seq<Todo>,
    input: Seq<char>,
    after: TodoList,
) -> bool {
    let n = calls.len() as int;
    &&& after.db.calls().len() == n + 1
    &&& after.db.calls().subrange(0, n) == calls
    &&& after.db.calls()[n].sql == list_sql()
    &&& after.db.calls()[n].param == SqlValue::Nothing
    &&& after.input@ == input
    &&& match after.db.calls()[n].answer {
        SqlAnswer::Rows(rows) => todos_view(after.todos@) == rows_as_todos(rows) && after.status is None,
        SqlAnswer::Failed(x) => after.todos@ == todos && is_failure_of(after.status, "DB error: "@, x),
        _ => false,
    }
}

/// The todo panel `after` a write to the database, from `before`: exactly
/// the statement `sql` with `param` was sent next; when SQLite refused it,
/// nothing else was sent, the todos and the input stay and the status reads
/// `prefix` and the error; otherwise the list was read again and the input
/// then reads `input_after`.
pub open spec fn wrote_from(
    before: TodoList,
    after: TodoList,
    sql: Seq<char>,
    param: SqlValue,
    prefix: Seq<char>,
    input_after: Seq<char>,
) -> bool {
    let n = before.db.calls().len() as int;
    let c = after.db.calls()[n];
    &&& after.db.calls().len() > n
    &&& after.db.calls().subrange(0, n) == before.db.calls()
    &&& c.sql == sql
    &&& c.param == param
    &&& match c.answer {
        SqlAnswer::Failed(x) => {
            &&& after.db.calls().len() == n + 1
            &&& after.todos@ == before.todos@
            &&& after.input@ == before.input@
            &&& is_failure_of(after.status, prefix, x)
        },
        _ => listed_from(before.db.calls().push(c), before.todos@, input_after, after),
    }
}

/// Builds the status line `prefix` + the error's text.
pub fn failure_status(prefix: &str, e: &DbError) -> (r: String)
    ensures
        r@ == failure_text(prefix@, e.message@),
{
    let mut r = String::from_str(prefix);
    r.append(e.message.as_str());
    r
}

impl TodoList {
    /// The panel over `db` once its list was read: the listed todos, or none
    /// when the listing failed; an empty input and no status.
    pub fn from_listing(db: Database, listing: Result<Vec<Todo>, DbError>) -> (r: TodoList)
        ensures
            r.db == db,
            r.input@ == Seq::<char>::empty(),
            r.status is None,
            match listing {
                Ok(t) => r.todos@ == t@,
                Err(_) => r.todos@ == Seq::<Todo>::empty(),
            },
    {
        let todos = match listing {
            Ok(t) => t,
            Err(_) => Vec::new(),
        };
        TodoList { db, todos, input: String::new(), status: None }
    }

    /// The panel over `db`, showing what the list query returns (an empty
    /// list when it fails), with an empty input and no status.
    pub fn new(db: Database) -> (r: TodoList)
        ensures
            r.input@ == Seq::<char>::empty(),
            r.status is None,
            r.db.calls().len() == db.calls().len() + 1,
            r.db.calls().drop_last() == db.calls(),
            r.db.calls().last().sql == list_sql(),
            r.db.calls().last().param == SqlValue::Nothing,
            match r.db.calls().last().answer {
                SqlAnswer::Rows(rows) => todos_view(r.todos@) == rows_as_todos(rows),
                _ => r.todos@ == Seq::<Todo>::empty(),
            },
    {
        let mut db = db;
        let listing = db.list();
        TodoList::from_listing(db, listing)
    }

    /// Takes in the result of reading the list: on success it replaces the
    /// shown todos and clears the status; on failure the todos stay and the
    /// status reads "DB error: " and the error's text.
    pub fn apply_listing(&mut self, listing: Result<Vec<Todo>, DbError>)
        ensures
            final(self).db == old(self).db,
            final(self).input@ == old(self).input@,
            match listing {
                Ok(t) => final(self).todos@ == t@ && final(self).status is None,
                Err(e) => {
                    &&& final(self).todos@ == old(self).todos@
                    &&& final(self).status matches Some(s)
                    &&& s@ == failure_text("DB error: "@, e.message@)
                },
            },
    {
        match listing {
            Ok(t) => {
                self.todos = t;
                self.status = None;
            },
            Err(e) => {
                self.status = Some(failure_status("DB error: ", &e));
            },
        }
    }

    /// Reads the list from the database again.
    pub fn refresh(&mut self)
        ensures
            listed_from(old(self).db.calls(), old(self).todos@, old(self).input@, *final(self)),
    {
        let listing = self.db.list();
        self.apply_listing(listing);
    }

    /// Takes in the outcome of a toggle or a delete: on success the list is
    /// read again; on failure the status reads `prefix` and the error's text,
    /// and the todos and the input stay.
    pub fn after_write(&mut self, prefix: &str, outcome: Result<(), DbError>)
        ensures
            match outcome {
                Ok(()) => listed_from(
                    old(self).db.calls(),
                    old(self).todos@,
                    old(self).input@,
                    *final(self),
                ),
                Err(e) => {
                    &&& final(self).db == old(self).db
                    &&& final(self).todos@ == old(self).todos@
                    &&& final(self).input@ == old(self).input@
                    &&& final(self).status matches Some(s)
                    &&& s@ == failure_text(prefix@, e.message@)
                },
            },
    {
        match outcome {
            Ok(()) => self.refresh(),
            Err(e) => {
                self.status = Some(failure_status(prefix, &e));
            },
        }
    }

    /// Takes in the outcome of an insert: on success the input is cleared
    /// and the list read again; on failure the status reads
    /// "Insert failed: " and the error's text, and the todos and the input
    /// stay.
    pub fn after_add(&mut self, outcome: Result<i64, DbError>)
        ensures
            match outcome {
                Ok(_) => listed_from(
                    old(self).db.calls(),
                    old(self).todos@,
                    Seq::<char>::empty(),
                    *final(self),
                ),
                Err(e) => {
                    &&& final(self).db == old(self).db
                    &&& final(self).todos@ == old(self).todos@
                    &&& final(self).input@ == old(self).input@
                    &&& final(self).status matches Some(s)
                    &&& s@ == failure_text("Insert failed: "@, e.message@)
                },
            },
    {
        match outcome {
            Ok(_) => {
                self.input = String::new();
                self.refresh();
            },
            Err(e) => {
                self.status = Some(failure_status("Insert failed: ", &e));
            },
        }
    }

    /// Handles one user action.
    ///
    /// Typing replaces the input.  Adding trims the input; a blank title is
    /// ignored, otherwise the insert of the trimmed title is sent and
    /// `after_add` takes the outcome.  Toggling and deleting send that
    /// statement for the given id and `after_write` takes the outcome, with
    /// the prefix "Toggle failed: " or "Delete failed: ".
    pub fn update(&mut self, message: TodoMessage)
        ensures
            match message {
                TodoMessage::InputChanged(value) => {
                    &&& final(self).db == old(self).db
                    &&& final(self).input@ == value@
                    &&& final(self).todos@ == old(self).todos@
                    &&& final(self).status == old(self).status
                },
                TodoMessage::AddTodo => if trimmed(old(self).input@).len() == 0 {
                    &&& final(self).db == old(self).db
                    &&& final(self).input@ == old(self).input@
                    &&& final(self).todos@ == old(self).todos@
                    &&& final(self).status == old(self).status
                } else {
                    wrote_from(
                        *old(self),
                        *final(self),
                        insert_sql(),
                        SqlValue::Text(trimmed(old(self).input@)),
                        "Insert failed: "@,
                        Seq::<char>::empty(),
                    )
                },
                TodoMessage::Toggle(id) => wrote_from(
                    *old(self),
                    *final(self),
                    toggle_sql(),
                    SqlValue::Integer(id),
                    "Toggle failed: "@,
                    old(self).input@,
                ),
                TodoMessage::Delete(id) => wrote_from(
                    *old(self),
                    *final(self),
                    delete_sql(),
                    SqlValue::Integer(id),
                    "Delete failed: "@,
                    old(self).input@,
                ),
            },
    {
        match message {
            TodoMessage::InputChanged(value) => {
                self.input = value;
            },
            TodoMessage::AddTodo => {
                let title = trim(self.input.as_str());
                if title.as_str().unicode_len() != 0 {
                    let outcome = self.db.add(title.as_str());
                    let ghost mid = self.db.calls();
                    self.after_add(outcome);
                    proof {
                        lemma_calls_extend(old(self).db.calls(), mid, self.db.calls());
                    }
                }
            },
            TodoMessage::Toggle(id) => {
                let outcome = self.db.toggle(id);
                let ghost mid = self.db.calls();
                self.after_write("Toggle failed: ", outcome);
                proof {
                    lemma_calls_extend(old(self).db.calls(), mid, self.db.calls());
                }
            },
            TodoMessage::Delete(id) => {
                let outcome = self.db.delete(id);
                let ghost mid = self.db.calls();
                self.after_write("Delete failed: ", outcome);
                proof {
                    lemma_calls_extend(old(self).db.calls(), mid, self.db.calls());
                }
            },
        }
    }

    /// The progress line for a pair of counts, or nothing when the counts
    /// could not be read.
    pub fn counter_for(counts: Result<(usize, usize), DbError>) -> (r: String)
        ensures
            match counts {
                Ok((done, total)) => r@ == counter_text_spec(done as nat, total as nat),
                Err(_) => r@ == Seq::<char>::empty(),
            },
    {
        match counts {
            Ok((done, total)) => counter_text(done, total),
            Err(_) => String::new(),
        }
    }

    /// The progress line "{done}/{total} completed" as the database counts
    /// it, or an empty line when it cannot count.
    pub fn counter_label(&mut self) -> (r: String)
        ensures
            final(self).todos@ == old(self).todos@,
            final(self).input@ == old(self).input@,
            final(self).status == old(self).status,
            counting_calls(old(self).db.calls(), final(self).db.calls()),
            ({
                let n = old(self).db.calls().len() as int;
                let counted = if final(self).db.calls().len() == n + 2 {
                    counts_at(final(self).db.calls(), n)
                } else {
                    None
                };
                match counted {
                    Some((done, total)) => r@ == counter_text_spec(done as nat, total as nat),
                    None => r@ == Seq::<char>::empty(),
                }
            }),
    {
        let counts = self.db.count();
        TodoList::counter_for(counts)
    }
}

/// After a write `mid` (one call more than `before`) and whatever followed
/// it, the write's call sits right after `before`.
proof fn lemma_calls_extend(before: Seq<SqlCall>, mid: Seq<SqlCall>, after: Seq<SqlCall>)
    requires
        mid.len() == before.len() + 1,
        mid.drop_last() == before,
        after == mid || (after.len() > mid.len() && after.subrange(0, mid.len() as int) == mid),
    ensures
        after.subrange(0, before.len() as int) == before,
        after[before.len() as int] == mid.last(),
        before.push(mid.last()) == mid,
{
    assert(before.push(mid.last()) =~= mid);
    if after == mid {
        assert(after.subrange(0, before.len() as int) =~= before);
    } else {
        assert(after.subrange(0, before.len() as int) =~= mid.subrange(0, before.len() as int));
        assert(mid.subrange(0, before.len() as int) =~= before);
        assert(after[before.len() as int] == after.subrange(0, mid.len() as int)[before.len() as int]);
    }
}

} // verus!
