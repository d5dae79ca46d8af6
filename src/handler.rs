use vstd::prelude::*;
use crate::user::{User, UserModel, users_model};
use crate::id::{parse_id, parsed_i32};

verus! {

/// An inbound request, already routed by method and path. Path identifiers
/// are carried as the text of the path segment.
pub enum Request {
    /// GET /users
    ListUsers,
    /// POST /users; the body's id is ignored.
    CreateUser(User),
    /// GET /users/{id}
    GetUser(String),
    /// PUT /users/{id}; the body's id is ignored.
    UpdateUser(String, User),
    /// DELETE /users/{id}
    DeleteUser(String),
}

/// The one statement a request runs against the session.
pub enum Statement {
    /// `SELECT * FROM users`
    SelectAll,
    /// `INSERT INTO users (name, email) VALUES ($1, $2) RETURNING id`
    Insert { name: String, email: String },
    /// `SELECT * FROM users WHERE id = $1`
    SelectById { id: i32 },
    /// `UPDATE users SET name = $1, email = $2 WHERE id = $3`
    Update { id: i32, name: String, email: String },
    /// `DELETE FROM users WHERE id = $1`
    DeleteById { id: i32 },
}

/// What the session reports for a statement.
pub enum Outcome {
    /// The rows a query returned.
    Rows(Vec<User>),
    /// The identifier an insert generated.
    Inserted(i32),
    /// The number of rows an update or delete touched.
    Affected(u64),
    /// The statement failed.
    Failed,
}

/// The body of a response.
pub enum Body {
    /// One record, as a JSON object.
    Record(User),
    /// A list of records, as a JSON array.
    Records(Vec<User>),
    /// No body.
    Empty,
    /// No record has this identifier.
    NotFound(i32),
    /// This path segment is not an integer identifier.
    InvalidId(String),
    /// The session failed; nothing about the failure is disclosed.
    Failure,
}

/// A status code and a body.
pub struct Response {
    pub status: u16,
    pub body: Body,
}

pub ghost enum RequestModel {
    ListUsers,
    CreateUser(UserModel),
    GetUser(Seq<char>),
    UpdateUser(Seq<char>, UserModel),
    DeleteUser(Seq<char>),
}

pub ghost enum StatementModel {
    SelectAll,
    Insert { name: Seq<char>, email: Seq<char> },
    SelectById { id: i32 },
    Update { id: i32, name: Seq<char>, email: Seq<char> },
    DeleteById { id: i32 },
}

pub ghost enum OutcomeModel {
    Rows(Seq<UserModel>),
    Inserted(i32),
    Affected(u64),
    Failed,
}

pub ghost enum BodyModel {
    Record(UserModel),
    Records(Seq<UserModel>),
    Empty,
    NotFound(i32),
    InvalidId(Seq<char>),
    Failure,
}

pub ghost struct ResponseModel {
    pub status: u16,
    pub body: BodyModel,
}

impl View for Request {
    type V = RequestModel;

    open spec fn view(&self) -> RequestModel {
        match self {
            Request::ListUsers => RequestModel::ListUsers,
            Request::CreateUser(u) => RequestModel::CreateUser(u@),
            Request::GetUser(t) => RequestModel::GetUser(t@),
            Request::UpdateUser(t, u) => RequestModel::UpdateUser(t@, u@),
            Request::DeleteUser(t) => RequestModel::DeleteUser(t@),
        }
    }
}

impl View for Statement {
    type V = StatementModel;

    open spec fn view(&self) -> StatementModel {
        match self {
            Statement::SelectAll => StatementModel::SelectAll,
            Statement::Insert { name, email } => StatementModel::Insert {
                name: name@,
                email: email@,
            },
            Statement::SelectById { id } => StatementModel::SelectById { id: *id },
            Statement::Update { id, name, email } => StatementModel::Update {
                id: *id,
                name: name@,
                email: email@,
            },
            Statement::DeleteById { id } => StatementModel::DeleteById { id: *id },
        }
    }
}

impl View for Outcome {
    type V = OutcomeModel;

    open spec fn view(&self) -> OutcomeModel {
        match self {
            Outcome::Rows(rows) => OutcomeModel::Rows(users_model(rows@)),
            Outcome::Inserted(id) => OutcomeModel::Inserted(*id),
            Outcome::Affected(n) => OutcomeModel::Affected(*n),
            Outcome::Failed => OutcomeModel::Failed,
        }
    }
}

impl View for Body {
    type V = BodyModel;

    open spec fn view(&self) -> BodyModel {
        match self {
            Body::Record(u) => BodyModel::Record(u@),
            Body::Records(v) => BodyModel::Records(users_model(v@)),
            Body::Empty => BodyModel::Empty,
            Body::NotFound(id) => BodyModel::NotFound(*id),
            Body::InvalidId(t) => BodyModel::InvalidId(t@),
            Body::Failure => BodyModel::Failure,
        }
    }
}

impl View for Response {
    type V = ResponseModel;

    open spec fn view(&self) -> ResponseModel {
        ResponseModel { status: self.status, body: self.body@ }
    }
}

pub open spec fn reply(status: u16, body: BodyModel) -> ResponseModel {
    ResponseModel { status, body }
}

/// The statement a request runs, or the response given without running one:
/// a path segment that is not an integer is answered with 500 naming it.
pub open spec fn plan_spec(req: RequestModel) -> Result<StatementModel, ResponseModel> {
    match req {
        RequestModel::ListUsers => Ok(StatementModel::SelectAll),
        RequestModel::CreateUser(u) => Ok(StatementModel::Insert { name: u.name, email: u.email }),
        RequestModel::GetUser(t) => match parsed_i32(t) {
            Some(id) => Ok(StatementModel::SelectById { id }),
            None => Err(reply(500, BodyModel::InvalidId(t))),
        },
        RequestModel::UpdateUser(t, u) => match parsed_i32(t) {
            Some(id) => Ok(StatementModel::Update { id, name: u.name, email: u.email }),
            None => Err(reply(500, BodyModel::InvalidId(t))),
        },
        RequestModel::DeleteUser(t) => match parsed_i32(t) {
            Some(id) => Ok(StatementModel::DeleteById { id }),
            None => Err(reply(500, BodyModel::InvalidId(t))),
        },
    }
}

/// The response to a statement's outcome. A failed statement, or an outcome
/// of a kind the statement cannot produce, is answered with 500.
pub open spec fn respond_spec(stmt: StatementModel, out: OutcomeModel) -> ResponseModel {
    match (stmt, out) {
        (StatementModel::SelectAll, OutcomeModel::Rows(rows)) => reply(
            200,
            BodyModel::Records(rows),
        ),
        (StatementModel::Insert { name, email }, OutcomeModel::Inserted(id)) => reply(
            201,
            BodyModel::Record(UserModel { id: Some(id), name, email }),
        ),
        (StatementModel::SelectById { id }, OutcomeModel::Rows(rows)) => if rows.len() == 0 {
            reply(404, BodyModel::NotFound(id))
        } else {
            reply(200, BodyModel::Record(rows[0]))
        },
        (StatementModel::Update { id, name, email }, OutcomeModel::Affected(n)) => if n == 0 {
            reply(404, BodyModel::Empty)
        } else {
            reply(200, BodyModel::Record(UserModel { id: Some(id), name, email }))
        },
        (StatementModel::DeleteById { id }, OutcomeModel::Affected(n)) => if n == 0 {
            reply(404, BodyModel::NotFound(id))
        } else {
            reply(204, BodyModel::Empty)
        },
        _ => reply(500, BodyModel::Failure),
    }
}

fn invalid_id(text: String) -> (r: Response)
    ensures
        r@ == reply(500, BodyModel::InvalidId(text@)),
{
    Response { status: 500, body: Body::InvalidId(text) }
}

/// Validates a request and chooses the statement it runs.
pub fn plan(req: Request) -> (r: Result<Statement, Response>)
    ensures
        match (r, plan_spec(req@)) {
            (Ok(s), Ok(ms)) => s@ == ms,
            (Err(e), Err(me)) => e@ == me,
            _ => false,
        },
{
    match req {
        Request::ListUsers => Ok(Statement::SelectAll),
        Request::CreateUser(u) => Ok(Statement::Insert { name: u.name, email: u.email }),
        Request::GetUser(t) => match parse_id(t.as_str()) {
            Some(id) => Ok(Statement::SelectById { id }),
            None => Err(invalid_id(t)),
        },
        Request::UpdateUser(t, u) => match parse_id(t.as_str()) {
            Some(id) => Ok(Statement::Update { id, name: u.name, email: u.email }),
            None => Err(invalid_id(t)),
        },
        Request::DeleteUser(t) => match parse_id(t.as_str()) {
            Some(id) => Ok(Statement::DeleteById { id }),
            None => Err(invalid_id(t)),
        },
    }
}

/// Maps the session's outcome for a statement to the response.
pub fn respond(stmt: Statement, out: Outcome) -> (r: Response)
    ensures
        r@ == respond_spec(stmt@, out@),
{
    match (stmt, out) {
        (Statement::SelectAll, Outcome::Rows(rows)) => Response {
            status: 200,
            body: Body::Records(rows),
        },
        (Statement::Insert { name, email }, Outcome::Inserted(id)) => Response {
            status: 201,
            body: Body::Record(User { id: Some(id), name, email }),
        },
        (Statement::SelectById { id }, Outcome::Rows(mut rows)) => if rows.len() == 0 {
            Response { status: 404, body: Body::NotFound(id) }
        } else {
            let first = rows.swap_remove(0);
            Response { status: 200, body: Body::Record(first) }
        },
        (Statement::Update { id, name, email }, Outcome::Affected(n)) => if n == 0 {
            Response { status: 404, body: Body::Empty }
        } else {
            Response { status: 200, body: Body::Record(User { id: Some(id), name, email }) }
        },
        (Statement::DeleteById { id }, Outcome::Affected(n)) => if n == 0 {
            Response { status: 404, body: Body::NotFound(id) }
        } else {
            Response { status: 204, body: Body::Empty }
        },
        _ => Response { status: 500, body: Body::Failure },
    }
}

} // verus!
