//! The user store: what it is asked, and the shapes in which it answers.

use vstd::prelude::*;
use vstd::string::StringExecFns;
use crate::models::{Queries, User};
use crate::utils::{decimal, decimal_string};

verus! {

/// The answer of the user store to one query.
#[derive(Debug, PartialEq, Eq)]
pub enum QueryResult<T> {
    Many(Vec<T>),
    One(T),
    Nothing(()),
}

impl<T> QueryResult<T> {
    /// The rows of an answer that holds many.
    pub fn many(self) -> (rows: Vec<T>)
        requires
            self is Many,
        ensures
            self == QueryResult::Many(rows),
    {
        match self {
            QueryResult::Many(t) => t,
            _ => unreached(),
        }
    }

    /// The row of an answer that holds exactly one.
    pub fn one(self) -> (row: T)
        requires
            self is One,
        ensures
            self == QueryResult::One(row),
    {
        match self {
            QueryResult::One(t) => t,
            _ => unreached(),
        }
    }

    /// The unit of an answer that holds no row.
    pub fn none(self) -> (unit: ())
        requires
            self is Nothing,
        ensures
            self == QueryResult::<T>::Nothing(unit),
    {
        match self {
            QueryResult::Nothing(t) => t,
            _ => unreached(),
        }
    }
}

/// The statement that makes the table of accounts, where there is none.
pub const CREATE_USERS: &'static str =
    "create table if not exists Users (id integer primary key, name VARCHAR(10) NOT NULL UNIQUE, email VARCHAR(30) NOT NULL UNIQUE, pass TEXT NOT NULL, size UNSIGNED INT, path TEXT NOT NULL, status UNSIGNED TINYINT)";

/// The statement that adds an account, where the store holds no
/// administrator.
pub const INSERT_FIRST_ADMIN: &'static str =
    "INSERT INTO Users (name, email, pass, size, path, status) SELECT ?1, ?2, ?3, ?4, ?5, ?6 WHERE NOT EXISTS(SELECT 1 FROM Users WHERE status = 1)";

/// The statement that fetches the account with the id `?1`.
pub const SELECT_BY_ID: &'static str = "SELECT * FROM Users WHERE id=(?1) LIMIT 1";

/// The statement that fetches the account with the email `?1`.
pub const SELECT_BY_EMAIL: &'static str = "SELECT * FROM Users WHERE email=(?1) LIMIT 1";

/// The statement that fetches all accounts.
pub const SELECT_ALL: &'static str = "SELECT * FROM Users";

/// The statement that adds an account.
pub const INSERT_USER: &'static str =
    "INSERT INTO Users (name, email, pass, size, path, status) VALUES(?1, ?2, ?3, ?4, ?5, ?6)";

/// The statement that deletes the account with the id `?1`.
pub const DELETE_BY_ID: &'static str = "DELETE FROM Users WHERE id=(?1)";

/// The statement that replaces all but the id of the account with the id
/// `?1`.
pub const UPDATE_BY_ID: &'static str =
    "UPDATE Users SET name = ?2, email = ?3, pass = ?4, size = ?5, path = ?6, status = ?7 WHERE id=(?1)";

/// The statement that replaces name, email and password of the account
/// with the id `?1`.
pub const UPDATE_ME_BY_ID: &'static str =
    "UPDATE Users SET name = ?2, email = ?3, pass = ?4 WHERE id=(?1)";

/// A value that is bound to a placeholder of a statement.
#[derive(Debug, PartialEq, Eq)]
pub enum Param {
    Int(u32),
    Text(String),
}

/// `Param` with its text as a sequence of characters.
pub enum ParamView {
    Int(u32),
    Text(Seq<char>),
}

impl View for Param {
    type V = ParamView;

    open spec fn view(&self) -> ParamView {
        match self {
            Param::Int(n) => ParamView::Int(*n),
            Param::Text(text) => ParamView::Text(text@),
        }
    }
}

/// The shape of the answer to a statement.
#[derive(Debug, Clone, Copy, PartialEq, Eq, Structural)]
pub enum Shape {
    /// Exactly one account.
    One,
    /// Any number of accounts.
    Many,
    /// No account: the statement changes the store.
    Nothing,
}

/// A statement for the store, with the values for its placeholders in
/// their order, and the shape of its answer.
#[derive(Debug, PartialEq, Eq)]
pub struct Statement {
    pub sql: &'static str,
    pub params: Vec<Param>,
    pub shape: Shape,
}

/// The views of `params`, in order.
pub open spec fn param_views(params: Seq<Param>) -> Seq<ParamView> {
    params.map_values(|p: Param| p@)
}

/// The six values that describe an account to the store, in the order of
/// its columns behind the id: numbers are bound as decimal text.
pub open spec fn columns(user: User) -> Seq<ParamView> {
    seq![
        ParamView::Text(user.name@),
        ParamView::Text(user.email@),
        ParamView::Text(user.pass@),
        ParamView::Text(decimal(user.size as nat)),
        ParamView::Text(user.path@),
        ParamView::Text(decimal(user.status as nat)),
    ]
}

impl Queries {
    /// The text of the statement for this query.
    pub open spec fn sql(self) -> &'static str {
        match self {
            Queries::GetUserById(_) => SELECT_BY_ID,
            Queries::GetAllUsers => SELECT_ALL,
            Queries::DeleteUserById(_) => DELETE_BY_ID,
            Queries::AddUser(_) => INSERT_USER,
            Queries::UpdateUserById(_, _) => UPDATE_BY_ID,
            Queries::UpdateMeById(_, _) => UPDATE_ME_BY_ID,
            Queries::GetUserByEmail(_) => SELECT_BY_EMAIL,
        }
    }

    /// The values for the placeholders of the statement, in their order.
    /// An id that is looked for or deleted is bound as a number, an id
    /// whose account is changed as decimal text.
    pub open spec fn params(self) -> Seq<ParamView> {
        match self {
            Queries::GetUserById(id) => seq![ParamView::Int(id)],
            Queries::GetAllUsers => Seq::empty(),
            Queries::DeleteUserById(id) => seq![ParamView::Int(id)],
            Queries::AddUser(user) => columns(user),
            Queries::UpdateUserById(id, user) => seq![ParamView::Text(decimal(id as nat))]
                + columns(user),
            Queries::UpdateMeById(id, user) => seq![
                ParamView::Text(decimal(id as nat)),
                ParamView::Text(user.name@),
                ParamView::Text(user.email@),
                ParamView::Text(user.pass@),
            ],
            Queries::GetUserByEmail(email) => seq![ParamView::Text(email@)],
        }
    }

    /// The shape of the answer: one account where one is looked for, many
    /// where all are, and none where the store is changed.
    pub open spec fn shape(self) -> Shape {
        match self {
            Queries::GetUserById(_) => Shape::One,
            Queries::GetUserByEmail(_) => Shape::One,
            Queries::GetAllUsers => Shape::Many,
            _ => Shape::Nothing,
        }
    }

    /// The statement that puts this query to the store.
    pub fn statement(&self) -> (statement: Statement)
        ensures
            statement.sql == self.sql(),
            param_views(statement.params@) == self.params(),
            statement.shape == self.shape(),
    {
        let mut params: Vec<Param> = Vec::new();
        match self {
            Queries::GetUserById(id) => {
                params.push(Param::Int(*id));
                proof {
                    assert(param_views(params@) =~= self.params());
                }
                Statement { sql: SELECT_BY_ID, params, shape: Shape::One }
            },
            Queries::GetAllUsers => {
                proof {
                    assert(param_views(params@) =~= self.params());
                }
                Statement { sql: SELECT_ALL, params, shape: Shape::Many }
            },
            Queries::DeleteUserById(id) => {
                params.push(Param::Int(*id));
                proof {
                    assert(param_views(params@) =~= self.params());
                }
                Statement { sql: DELETE_BY_ID, params, shape: Shape::Nothing }
            },
            Queries::AddUser(user) => {
                push_columns(&mut params, user);
                proof {
                    assert(param_views(params@) =~= self.params());
                }
                Statement { sql: INSERT_USER, params, shape: Shape::Nothing }
            },
            Queries::UpdateUserById(id, user) => {
                params.push(Param::Text(decimal_string(*id as u64)));
                push_columns(&mut params, user);
                proof {
                    assert(param_views(params@) =~= self.params());
                }
                Statement { sql: UPDATE_BY_ID, params, shape: Shape::Nothing }
            },
            Queries::UpdateMeById(id, user) => {
                params.push(Param::Text(decimal_string(*id as u64)));
                params.push(Param::Text(user.name.clone()));
                params.push(Param::Text(user.email.clone()));
                params.push(Param::Text(user.pass.clone()));
                proof {
                    assert(param_views(params@) =~= self.params());
                }
                Statement { sql: UPDATE_ME_BY_ID, params, shape: Shape::Nothing }
            },
            Queries::GetUserByEmail(email) => {
                params.push(Param::Text(email.clone()));
                proof {
                    assert(param_views(params@) =~= self.params());
                }
                Statement { sql: SELECT_BY_EMAIL, params, shape: Shape::One }
            },
        }
    }
}

/// Puts the six values that describe `user` behind `params`.
fn push_columns(params: &mut Vec<Param>, user: &User)
    ensures
        param_views(final(params)@) == param_views(old(params)@) + columns(*user),
{
    params.push(Param::Text(user.name.clone()));
    params.push(Param::Text(user.email.clone()));
    params.push(Param::Text(user.pass.clone()));
    params.push(Param::Text(decimal_string(user.size as u64)));
    params.push(Param::Text(user.path.clone()));
    params.push(Param::Text(decimal_string(user.status as u64)));
    proof {
        assert(param_views(params@) =~= param_views(old(params)@) + columns(*user));
    }
}

/// The statement that gives a store without an administrator its first
/// one; `admin` is the account to add.
pub fn seed(admin: &User) -> (statement: Statement)
    ensures
        statement.sql == INSERT_FIRST_ADMIN,
        param_views(statement.params@) == columns(*admin),
        statement.shape == Shape::Nothing,
{
    let mut params: Vec<Param> = Vec::new();
    push_columns(&mut params, admin);
    proof {
        assert(param_views(params@) =~= columns(*admin));
    }
    Statement { sql: INSERT_FIRST_ADMIN, params, shape: Shape::Nothing }
}

/// The administrator that a store without one starts with. `pass` is the
/// hash of its password. Its quota is the largest there is, and its files
/// are all files below the storage root. The store gives it its id when it
/// takes it; until then the id is 0.
pub fn first_admin(pass: String) -> (admin: User)
    ensures
        admin.id == 0,
        admin.name@ == "admin"@,
        admin.email@ == "admin@admin.com"@,
        admin.pass == pass,
        admin.size == u32::MAX,
        admin.path@ == "/"@,
        admin.status == 1,
{
    User {
        id: 0,
        name: String::from_str("admin"),
        email: String::from_str("admin@admin.com"),
        pass,
        size: u32::MAX,
        path: String::from_str("/"),
        status: 1,
    }
}

} // verus!
