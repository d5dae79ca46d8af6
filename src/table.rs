use vstd::prelude::*;
use crate::user::{User, UserModel, users_model};
use crate::handler::{
    Request, RequestModel, Response, ResponseModel, Statement, StatementModel, Outcome,
    OutcomeModel, plan, plan_spec, respond, respond_spec,
};

verus! {

/// The contents of the `users` table, in insertion order, and the value its
/// serial column hands out next.
pub ghost struct TableModel {
    pub rows: Seq<UserModel>,
    pub next_id: int,
}

/// Every row has an identifier below `next_id`, and no two rows share one.
pub open spec fn table_wf(t: TableModel) -> bool {
    &&& 1 <= t.next_id <= i32::MAX + 1
    &&& forall|i: int|
        0 <= i < t.rows.len() ==> {
            &&& (#[trigger] t.rows[i]).id.is_some()
            &&& 1 <= t.rows[i].id.unwrap() < t.next_id
        }
    &&& forall|i: int, j: int|
        0 <= i < t.rows.len() && 0 <= j < t.rows.len() && i != j ==> #[trigger] t.rows[i].id
            != #[trigger] t.rows[j].id
}

/// Whether some row has identifier `id`.
pub open spec fn has_id(rows: Seq<UserModel>, id: i32) -> bool {
    exists|i: int| 0 <= i < rows.len() && #[trigger] rows[i].id == Some(id)
}

/// The position of the row with identifier `id`, where there is one.
pub open spec fn index_of(rows: Seq<UserModel>, id: i32) -> int {
    choose|i: int| 0 <= i < rows.len() && #[trigger] rows[i].id == Some(id)
}

/// The table after a statement, and what the statement reports.
pub open spec fn execute_spec(t: TableModel, stmt: StatementModel) -> (TableModel, OutcomeModel) {
    match stmt {
        StatementModel::SelectAll => (t, OutcomeModel::Rows(t.rows)),
        StatementModel::Insert { name, email } => if t.next_id <= i32::MAX {
            (
                TableModel {
                    rows: t.rows.push(UserModel { id: Some(t.next_id as i32), name, email }),
                    next_id: t.next_id + 1,
                },
                OutcomeModel::Inserted(t.next_id as i32),
            )
        } else {
            (t, OutcomeModel::Failed)
        },
        StatementModel::SelectById { id } => if has_id(t.rows, id) {
            (t, OutcomeModel::Rows(seq![t.rows[index_of(t.rows, id)]]))
        } else {
            (t, OutcomeModel::Rows(seq![]))
        },
        StatementModel::Update { id, name, email } => if has_id(t.rows, id) {
            (
                TableModel {
                    rows: t.rows.update(index_of(t.rows, id), UserModel { id: Some(id), name, email }),
                    next_id: t.next_id,
                },
                OutcomeModel::Affected(1),
            )
        } else {
            (t, OutcomeModel::Affected(0))
        },
        StatementModel::DeleteById { id } => if has_id(t.rows, id) {
            (
                TableModel { rows: t.rows.remove(index_of(t.rows, id)), next_id: t.next_id },
                OutcomeModel::Affected(1),
            )
        } else {
            (t, OutcomeModel::Affected(0))
        },
    }
}

/// The table after a request, and the response to it.
pub open spec fn handle_spec(t: TableModel, req: RequestModel) -> (TableModel, ResponseModel) {
    match plan_spec(req) {
        Err(r) => (t, r),
        Ok(stmt) => {
            let (t2, out) = execute_spec(t, stmt);
            (t2, respond_spec(stmt, out))
        },
    }
}

/// An in-process session over the `users` table.
pub struct UserTable {
    rows: Vec<User>,
    next_id: i64,
}

impl View for UserTable {
    type V = TableModel;

    closed spec fn view(&self) -> TableModel {
        TableModel { rows: users_model(self.rows@), next_id: self.next_id as int }
    }
}

impl UserTable {
    pub open spec fn wf(&self) -> bool {
        table_wf(self@)
    }

    /// An empty table whose serial starts at 1.
    pub fn new() -> (r: UserTable)
        ensures
            r.wf(),
            r@.rows == Seq::<UserModel>::empty(),
            r@.next_id == 1,
    {
        let r = UserTable { rows: Vec::new(), next_id: 1 };
        assert(r@.rows =~= Seq::<UserModel>::empty());
        r
    }

    fn find(&self, id: i32) -> (r: Option<usize>)
        ensures
            match r {
                Some(i) => i < self@.rows.len() && self@.rows[i as int].id == Some(id),
                None => !has_id(self@.rows, id),
            },
    {
        let mut i: usize = 0;
        while i < self.rows.len()
            invariant
                i <= self.rows@.len(),
                self@.rows.len() == self.rows@.len(),
                forall|k: int| 0 <= k < i ==> self@.rows[k].id != Some(id),
            decreases self.rows@.len() - i,
        {
            assert(self@.rows[i as int] == self.rows@[i as int]@);
            if self.rows[i].id == Some(id) {
                return Some(i);
            }
            i = i + 1;
        }
        None
    }

    fn copy_rows(&self) -> (r: Vec<User>)
        ensures
            users_model(r@) == self@.rows,
    {
        let mut out: Vec<User> = Vec::new();
        let mut i: usize = 0;
        while i < self.rows.len()
            invariant
                i <= self.rows@.len(),
                self@.rows.len() == self.rows@.len(),
                out@.len() == i,
                forall|k: int| 0 <= k < i ==> (#[trigger] out@[k])@ == self@.rows[k],
            decreases self.rows@.len() - i,
        {
            assert(self@.rows[i as int] == self.rows@[i as int]@);
            out.push(self.rows[i].duplicate());
            i = i + 1;
        }
        assert(users_model(out@) =~= self@.rows);
        out
    }

    /// Runs one statement against the table.
    pub fn execute(&mut self, stmt: &Statement) -> (out: Outcome)
        requires
            old(self).wf(),
        ensures
            final(self).wf(),
            (final(self)@, out@) == execute_spec(old(self)@, stmt@),
    {
        match stmt {
            Statement::SelectAll => Outcome::Rows(self.copy_rows()),
            Statement::Insert { name, email } => {
                if self.next_id <= i32::MAX as i64 {
                    let id = self.next_id as i32;
                    let ghost old_rows = self@.rows;
                    self.rows.push(User { id: Some(id), name: name.clone(), email: email.clone() });
                    self.next_id = self.next_id + 1;
                    assert(self@.rows =~= old_rows.push(self.rows@.last()@));
                    Outcome::Inserted(id)
                } else {
                    Outcome::Failed
                }
            },
            Statement::SelectById { id } => match self.find(*id) {
                Some(i) => {
                    let row = self.rows[i].duplicate();
                    let mut v: Vec<User> = Vec::new();
                    v.push(row);
                    assert(users_model(v@) =~= seq![self@.rows[index_of(self@.rows, *id)]]);
                    Outcome::Rows(v)
                },
                None => {
                    let v: Vec<User> = Vec::new();
                    assert(users_model(v@) =~= Seq::<UserModel>::empty());
                    Outcome::Rows(v)
                },
            },
            Statement::Update { id, name, email } => match self.find(*id) {
                Some(i) => {
                    let ghost old_rows = self@.rows;
                    self.rows[i] = User { id: Some(*id), name: name.clone(), email: email.clone() };
                    assert(self@.rows =~= old_rows.update(index_of(old_rows, *id), self.rows@[i as int]@));
                    Outcome::Affected(1)
                },
                None => Outcome::Affected(0),
            },
            Statement::DeleteById { id } => match self.find(*id) {
                Some(i) => {
                    let ghost old_rows = self@.rows;
                    self.rows.remove(i);
                    assert(self@.rows =~= old_rows.remove(index_of(old_rows, *id)));
                    Outcome::Affected(1)
                },
                None => Outcome::Affected(0),
            },
        }
    }
}

/// Handles one request against the table: validate, run the statement, map
/// its outcome to the response.
pub fn handle(table: &mut UserTable, req: Request) -> (r: Response)
    requires
        old(table).wf(),
    ensures
        final(table).wf(),
        (final(table)@, r@) == handle_spec(old(table)@, req@),
{
    match plan(req) {
        Err(r) => r,
        Ok(stmt) => {
            let out = table.execute(&stmt);
            respond(stmt, out)
        },
    }
}

} // verus!
