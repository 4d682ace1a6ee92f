use cloud_files::db::{first_admin, seed, Param, Shape};
use cloud_files::models::{ChangingUser, Queries, User};

fn user() -> User {
    User {
        id: 9,
        name: "grace".to_string(),
        email: "grace@example.com".to_string(),
        pass: "$2b$hash".to_string(),
        size: 4096,
        path: "/grace".to_string(),
        status: 3,
    }
}

fn text(s: &str) -> Param {
    Param::Text(s.to_string())
}

fn columns() -> Vec<Param> {
    vec![
        text("grace"),
        text("grace@example.com"),
        text("$2b$hash"),
        text("4096"),
        text("/grace"),
        text("3"),
    ]
}

/// The number of the highest placeholder in `sql`.
fn placeholders(sql: &str) -> usize {
    (1..=9).filter(|n| sql.contains(&format!("?{}", n))).max().unwrap_or(0)
}

#[test]
fn an_account_is_looked_up_by_its_id_as_a_number() {
    let statement = Queries::GetUserById(17).statement();
    assert_eq!(statement.sql, "SELECT * FROM Users WHERE id=(?1) LIMIT 1");
    assert_eq!(statement.params, vec![Param::Int(17)]);
    assert_eq!(statement.shape, Shape::One);
}

#[test]
fn an_account_is_looked_up_by_its_email() {
    let statement = Queries::GetUserByEmail("grace@example.com".to_string()).statement();
    assert_eq!(statement.sql, "SELECT * FROM Users WHERE email=(?1) LIMIT 1");
    assert_eq!(statement.params, vec![text("grace@example.com")]);
    assert_eq!(statement.shape, Shape::One);
}

#[test]
fn all_accounts_are_fetched_without_a_value() {
    let statement = Queries::GetAllUsers.statement();
    assert_eq!(statement.sql, "SELECT * FROM Users");
    assert_eq!(statement.params, vec![]);
    assert_eq!(statement.shape, Shape::Many);
}

#[test]
fn an_account_is_added_without_its_id() {
    let statement = Queries::AddUser(user()).statement();
    assert_eq!(
        statement.sql,
        "INSERT INTO Users (name, email, pass, size, path, status) VALUES(?1, ?2, ?3, ?4, ?5, ?6)"
    );
    assert_eq!(statement.params, columns());
    assert_eq!(statement.shape, Shape::Nothing);
}

#[test]
fn an_account_is_deleted_by_its_id_as_a_number() {
    let statement = Queries::DeleteUserById(u32::MAX).statement();
    assert_eq!(statement.sql, "DELETE FROM Users WHERE id=(?1)");
    assert_eq!(statement.params, vec![Param::Int(u32::MAX)]);
    assert_eq!(statement.shape, Shape::Nothing);
}

#[test]
fn an_account_is_replaced_under_the_id_of_the_request() {
    // the id of the request decides, not the id in the account
    let statement = Queries::UpdateUserById(21, user()).statement();
    let mut params = vec![text("21")];
    params.extend(columns());
    assert_eq!(statement.params, params);
    assert_eq!(statement.shape, Shape::Nothing);
    assert!(statement.sql.starts_with("UPDATE Users SET name = ?2"));
    assert!(statement.sql.ends_with("WHERE id=(?1)"));
}

#[test]
fn an_account_changes_its_name_email_and_password_only() {
    let change = ChangingUser {
        name: "hopper".to_string(),
        email: "hopper@example.com".to_string(),
        pass: "$2b$new".to_string(),
    };
    let statement = Queries::UpdateMeById(4_000_000_000, change).statement();
    assert_eq!(
        statement.sql,
        "UPDATE Users SET name = ?2, email = ?3, pass = ?4 WHERE id=(?1)"
    );
    assert_eq!(
        statement.params,
        vec![text("4000000000"), text("hopper"), text("hopper@example.com"), text("$2b$new")]
    );
    assert_eq!(statement.shape, Shape::Nothing);
}

#[test]
fn every_statement_has_a_value_for_each_placeholder() {
    let change = || ChangingUser { name: String::new(), email: String::new(), pass: String::new() };
    let queries = vec![
        Queries::GetUserById(1),
        Queries::GetAllUsers,
        Queries::DeleteUserById(1),
        Queries::AddUser(user()),
        Queries::UpdateUserById(1, user()),
        Queries::UpdateMeById(1, change()),
        Queries::GetUserByEmail(String::new()),
    ];
    for query in queries.iter() {
        let statement = query.statement();
        assert_eq!(statement.params.len(), placeholders(statement.sql));
    }
    let statement = seed(&user());
    assert_eq!(statement.params.len(), placeholders(statement.sql));
}

#[test]
fn the_first_administrator_is_added_only_where_there_is_none() {
    let statement = seed(&first_admin("hashed".to_string()));
    assert!(statement.sql.starts_with("INSERT INTO Users (name, email, pass, size, path, status)"));
    assert!(statement.sql.ends_with("WHERE NOT EXISTS(SELECT 1 FROM Users WHERE status = 1)"));
    assert_eq!(
        statement.params,
        vec![
            text("admin"),
            text("admin@admin.com"),
            text("hashed"),
            text("4294967295"),
            text("/"),
            text("1"),
        ]
    );
    assert_eq!(statement.shape, Shape::Nothing);
}
