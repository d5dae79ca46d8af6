use vstd::prelude::*;
use crate::user::UserModel;
use crate::id::parsed_i32;
use crate::handler::{RequestModel, StatementModel, BodyModel, plan_spec, reply};
use crate::table::{TableModel, table_wf, has_id, index_of, execute_spec, handle_spec};

verus! {

/// Every statement keeps the table well formed.
pub proof fn lemma_execute_wf(t: TableModel, stmt: StatementModel)
    requires
        table_wf(t),
    ensures
        table_wf(execute_spec(t, stmt).0),
{
}

/// Every request keeps the table well formed.
pub proof fn lemma_handle_wf(t: TableModel, req: RequestModel)
    requires
        table_wf(t),
    ensures
        table_wf(handle_spec(t, req).0),
{
    match plan_spec(req) {
        Ok(stmt) => lemma_execute_wf(t, stmt),
        Err(_) => {},
    }
}

proof fn lemma_index_of_unique(rows: Seq<UserModel>, id: i32, i: int)
    requires
        forall|a: int, b: int|
            0 <= a < rows.len() && 0 <= b < rows.len() && a != b ==> #[trigger] rows[a].id
                != #[trigger] rows[b].id,
        0 <= i < rows.len(),
        rows[i].id == Some(id),
    ensures
        has_id(rows, id),
        index_of(rows, id) == i,
{
    assert(rows[i].id == Some(id));
    let j = index_of(rows, id);
    assert(0 <= j < rows.len() && rows[j].id == Some(id));
}

/// A created record can be read back: creating a user answers 201 with the
/// given name and email and a fresh identifier, and reading that identifier
/// afterwards answers 200 with the same record. This holds while the serial
/// column still has values to hand out.
pub proof fn lemma_create_then_get(t: TableModel, u: UserModel)
    requires
        table_wf(t),
        t.next_id <= i32::MAX,
    ensures
        ({
            let (t1, r1) = handle_spec(t, RequestModel::CreateUser(u));
            let created = UserModel { id: Some(t.next_id as i32), name: u.name, email: u.email };
            &&& r1 == reply(201, BodyModel::Record(created))
            &&& forall|text: Seq<char>|
                #[trigger] parsed_i32(text) == created.id ==> handle_spec(
                    t1,
                    RequestModel::GetUser(text),
                ) == (t1, reply(200, BodyModel::Record(created)))
        }),
{
    let (t1, r1) = handle_spec(t, RequestModel::CreateUser(u));
    lemma_handle_wf(t, RequestModel::CreateUser(u));
    let n = t.next_id as i32;
    assert(t1.rows[t.rows.len() as int].id == Some(n));
    lemma_index_of_unique(t1.rows, n, t.rows.len() as int);
}

/// Reading, updating or deleting an identifier that no row has answers 404
/// and leaves the table as it was.
pub proof fn lemma_unknown_id(t: TableModel, text: Seq<char>, u: UserModel)
    requires
        table_wf(t),
        parsed_i32(text).is_some(),
        !has_id(t.rows, parsed_i32(text).unwrap()),
    ensures
        handle_spec(t, RequestModel::GetUser(text)) == (
            t,
            reply(404, BodyModel::NotFound(parsed_i32(text).unwrap())),
        ),
        handle_spec(t, RequestModel::UpdateUser(text, u)) == (t, reply(404, BodyModel::Empty)),
        handle_spec(t, RequestModel::DeleteUser(text)) == (
            t,
            reply(404, BodyModel::NotFound(parsed_i32(text).unwrap())),
        ),
{
}

/// A path segment that is not an integer identifier is answered with 500
/// naming the segment, on every route that takes an identifier, and the table
/// is left as it was.
pub proof fn lemma_malformed_id(t: TableModel, text: Seq<char>, u: UserModel)
    requires
        parsed_i32(text).is_none(),
    ensures
        handle_spec(t, RequestModel::GetUser(text)) == (t, reply(500, BodyModel::InvalidId(text))),
        handle_spec(t, RequestModel::UpdateUser(text, u)) == (
            t,
            reply(500, BodyModel::InvalidId(text)),
        ),
        handle_spec(t, RequestModel::DeleteUser(text)) == (
            t,
            reply(500, BodyModel::InvalidId(text)),
        ),
{
}

/// Deleting an existing record answers 204; deleting it again at once
/// answers 404.
pub proof fn lemma_delete_twice(t: TableModel, text: Seq<char>)
    requires
        table_wf(t),
        parsed_i32(text).is_some(),
        has_id(t.rows, parsed_i32(text).unwrap()),
    ensures
        ({
            let (t1, r1) = handle_spec(t, RequestModel::DeleteUser(text));
            &&& r1 == reply(204, BodyModel::Empty)
            &&& handle_spec(t1, RequestModel::DeleteUser(text)).1 == reply(
                404,
                BodyModel::NotFound(parsed_i32(text).unwrap()),
            )
        }),
{
    let id = parsed_i32(text).unwrap();
    let (t1, r1) = handle_spec(t, RequestModel::DeleteUser(text));
    let k = index_of(t.rows, id);
    assert(t1.rows == t.rows.remove(k));
    if has_id(t1.rows, id) {
        let j = choose|j: int| 0 <= j < t1.rows.len() && #[trigger] t1.rows[j].id == Some(id);
        if j < k {
            assert(t.rows[j].id == Some(id));
        } else {
            assert(t.rows[j + 1].id == Some(id));
        }
    }
}

/// Identifiers handed out by successive creations are distinct: each is
/// greater than every identifier already in the table, so the second of two
/// creations gets a greater one than the first.
pub proof fn lemma_create_ids_fresh(t: TableModel, u1: UserModel, u2: UserModel)
    requires
        table_wf(t),
        t.next_id < i32::MAX,
    ensures
        ({
            let (t1, r1) = handle_spec(t, RequestModel::CreateUser(u1));
            let (t2, r2) = handle_spec(t1, RequestModel::CreateUser(u2));
            match (r1.body, r2.body) {
                (BodyModel::Record(c1), BodyModel::Record(c2)) => {
                    &&& r1.status == 201 && r2.status == 201
                    &&& c1.id.is_some() && c2.id.is_some()
                    &&& forall|i: int|
                        0 <= i < t.rows.len() ==> (#[trigger] t.rows[i]).id.unwrap()
                            < c1.id.unwrap()
                    &&& c1.id.unwrap() < c2.id.unwrap()
                },
                _ => false,
            }
        }),
{
}

/// Listing answers 200 with exactly the rows of the table.
pub proof fn lemma_list_exact(t: TableModel)
    ensures
        handle_spec(t, RequestModel::ListUsers) == (t, reply(200, BodyModel::Records(t.rows))),
{
}

/// After a creation, the listed records are those listed before and the
/// created one.
pub proof fn lemma_list_after_create(t: TableModel, u: UserModel)
    requires
        table_wf(t),
        t.next_id <= i32::MAX,
    ensures
        ({
            let t1 = handle_spec(t, RequestModel::CreateUser(u)).0;
            let created = UserModel { id: Some(t.next_id as i32), name: u.name, email: u.email };
            forall|r: UserModel|
                #[trigger] t1.rows.contains(r) <==> (t.rows.contains(r) || r == created)
        }),
{
    let t1 = handle_spec(t, RequestModel::CreateUser(u)).0;
    let created = UserModel { id: Some(t.next_id as i32), name: u.name, email: u.email };
    assert forall|r: UserModel| #[trigger]
        t1.rows.contains(r) <==> (t.rows.contains(r) || r == created) by {
        if t.rows.contains(r) {
            let i = choose|i: int| 0 <= i < t.rows.len() && t.rows[i] == r;
            assert(t1.rows[i] == r);
        }
        if r == created {
            assert(t1.rows[t.rows.len() as int] == r);
        }
        if t1.rows.contains(r) {
            let i = choose|i: int| 0 <= i < t1.rows.len() && t1.rows[i] == r;
            if i < t.rows.len() {
                assert(t.rows[i] == r);
            }
        }
    }
}

/// After a deletion, the listed records are those listed before but the one
/// with the deleted identifier.
pub proof fn lemma_list_after_delete(t: TableModel, text: Seq<char>)
    requires
        table_wf(t),
        parsed_i32(text).is_some(),
    ensures
        ({
            let id = parsed_i32(text).unwrap();
            let t1 = handle_spec(t, RequestModel::DeleteUser(text)).0;
            forall|r: UserModel|
                #[trigger] t1.rows.contains(r) <==> (t.rows.contains(r) && r.id != Some(id))
        }),
{
    let id = parsed_i32(text).unwrap();
    let t1 = handle_spec(t, RequestModel::DeleteUser(text)).0;
    if has_id(t.rows, id) {
        let k = index_of(t.rows, id);
        assert(t1.rows == t.rows.remove(k));
        assert forall|r: UserModel| #[trigger]
            t1.rows.contains(r) <==> (t.rows.contains(r) && r.id != Some(id)) by {
            if t1.rows.contains(r) {
                let j = choose|j: int| 0 <= j < t1.rows.len() && t1.rows[j] == r;
                if j < k {
                    assert(t.rows[j] == r);
                } else {
                    assert(t.rows[j + 1] == r);
                }
            }
            if t.rows.contains(r) && r.id != Some(id) {
                let j = choose|j: int| 0 <= j < t.rows.len() && t.rows[j] == r;
                assert(j != k);
                if j < k {
                    assert(t1.rows[j] == r);
                } else {
                    assert(t1.rows[j - 1] == r);
                }
            }
        }
    } else {
        assert forall|r: UserModel| #[trigger]
            t1.rows.contains(r) <==> (t.rows.contains(r) && r.id != Some(id)) by {
            if t.rows.contains(r) {
                let j = choose|j: int| 0 <= j < t.rows.len() && t.rows[j] == r;
                assert(t.rows[j].id != Some(id));
            }
        }
    }
}

} // verus!
