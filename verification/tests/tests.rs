use sqll::{BindValue, Code, Connection, Error, Null, OpenOptions, Real, Statement, ValueType};

fn setup_english(path: &str) -> Result<Connection, Error> {
    let c = Connection::open(path)?;
    c.execute(
        "
        CREATE TABLE english (value TEXT);
        INSERT INTO english VALUES ('cerotype');
        INSERT INTO english VALUES ('metatype');
        INSERT INTO english VALUES ('ozotype');
        INSERT INTO english VALUES ('phenotype');
        INSERT INTO english VALUES ('plastotype');
        INSERT INTO english VALUES ('undertype');
        INSERT INTO english VALUES ('nonsence');
        ",
    )?;
    Ok(c)
}

fn setup_users(path: &str) -> Result<Connection, Error> {
    let c = Connection::open(path)?;
    c.execute(
        "
        CREATE TABLE users (id INTEGER, name TEXT, age REAL, photo BLOB, email TEXT);
        INSERT INTO users VALUES (1, 'Alice', 42.69, X'4269', NULL);
        ",
    )?;
    Ok(c)
}

#[test]
fn tests_connection_change_count() -> Result<(), Error> {
    let c = setup_users(":memory:")?;
    assert_eq!(c.changes(), 1);
    assert_eq!(c.total_changes(), 1);

    c.execute("INSERT INTO users VALUES (2, 'Bob', NULL, NULL, NULL)")?;
    assert_eq!(c.changes(), 1);
    assert_eq!(c.total_changes(), 2);

    c.execute("UPDATE users SET name = 'Bob' WHERE id = 1")?;
    assert_eq!(c.changes(), 1);
    assert_eq!(c.total_changes(), 3);

    c.execute("DELETE FROM users")?;
    assert_eq!(c.changes(), 2);
    assert_eq!(c.total_changes(), 5);
    Ok(())
}

#[test]
fn tests_connection_error() -> Result<(), Error> {
    let c = setup_users(":memory:")?;
    let e = c.execute(":)").unwrap_err();
    assert_eq!(e.code(), Code::ERROR);
    Ok(())
}

#[test]
fn tests_connection_open_with_flags() -> Result<(), Error> {
    let dir = tempfile::tempdir().expect("tempdir");
    let path = dir.path().join("database.sqlite3");
    let path = path.to_str().expect("path");

    setup_users(path)?;

    let mut flags = OpenOptions::new();
    flags.read_only();
    let c = flags.open(path)?;
    let e = c
        .execute("INSERT INTO users VALUES (2, 'Bob', NULL, NULL, NULL)")
        .unwrap_err();

    assert_eq!(e.code(), Code::READONLY);
    Ok(())
}

#[test]
fn tests_statement_column_count() -> Result<(), Error> {
    let c = setup_users(":memory:")?;
    let mut stmt = c.prepare("SELECT * FROM users")?;
    assert!(stmt.step()?.is_row());
    assert_eq!(stmt.column_count(), 5);
    Ok(())
}

#[test]
fn statement_column_type() -> Result<(), Error> {
    let c = setup_users(":memory:")?;
    let mut s = c.prepare("SELECT * FROM users")?;

    assert_eq!(s.column_type(0), ValueType::NULL);
    assert_eq!(s.column_type(1), ValueType::NULL);
    assert_eq!(s.column_type(2), ValueType::NULL);
    assert_eq!(s.column_type(3), ValueType::NULL);

    assert!(s.step()?.is_row());

    assert_eq!(s.column_type(0), ValueType::INTEGER);
    assert_eq!(s.column_type(1), ValueType::TEXT);
    assert_eq!(s.column_type(2), ValueType::FLOAT);
    assert_eq!(s.column_type(3), ValueType::BLOB);
    Ok(())
}

#[test]
fn tests_statement_read_with_nullable() -> Result<(), Error> {
    let c = setup_users(":memory:")?;
    let mut stmt = c.prepare("SELECT * FROM users")?;

    assert!(stmt.step()?.is_row());
    assert_eq!(stmt.column::<Option<i64>>(0)?, Some(1));
    assert_eq!(
        stmt.column::<Option<String>>(1)?,
        Some(String::from("Alice"))
    );
    assert_eq!(
        stmt.column::<Option<Real>>(2)?.map(|r| f64::from_bits(r.to_bits())),
        Some(42.69)
    );
    assert_eq!(stmt.column::<Option<Vec<u8>>>(3)?, Some(vec![0x42, 0x69]));
    assert_eq!(stmt.column::<Option<String>>(4)?, None);
    assert!(stmt.step()?.is_done());
    Ok(())
}

#[test]
fn tests_statement_wildcard() -> Result<(), Error> {
    let c = setup_english(":memory:")?;
    let mut stmt = c.prepare("SELECT value FROM english WHERE value LIKE '%type'")?;

    let mut count = 0;

    while stmt.step()?.is_row() {
        count += 1;
    }

    assert_eq!(count, 6);
    Ok(())
}

#[test]
fn tests_statement_wildcard_with_binding() -> Result<(), Error> {
    let c = setup_english(":memory:")?;
    let mut stmt = c.prepare("SELECT value FROM english WHERE value LIKE ?")?;

    stmt.bind_value(1, "%type")?;

    let mut count = 0;

    while stmt.step()?.is_row() {
        count += 1;
    }

    assert_eq!(count, 6);
    Ok(())
}

#[test]
fn tests_statement_bind() -> Result<(), Error> {
    let c = setup_users(":memory:")?;
    let mut stmt = c.prepare("INSERT INTO users VALUES (?, ?, ?, ?, ?)")?;

    stmt.bind_value(1, 2i64)?;
    stmt.bind_value(2, "Bob")?;
    stmt.bind_value(4, &[0x69u8, 0x42u8][..])?;
    stmt.bind_value(5, Null)?;

    assert!(stmt.step()?.is_done());
    Ok(())
}

#[test]
fn tests_statement_bind_with_nullable() -> Result<(), Error> {
    let c = setup_users(":memory:")?;
    let mut stmt = c.prepare("INSERT INTO users VALUES (?, ?, ?, ?, ?)")?;

    stmt.bind_value(1, None::<i64>)?;
    stmt.bind_value(2, None::<&str>)?;
    stmt.bind_value(4, None::<&[u8]>)?;
    stmt.bind_value(5, None::<&str>)?;

    assert!(stmt.step()?.is_done());

    let mut stmt = c.prepare("INSERT INTO users VALUES (?, ?, ?, ?, ?)")?;

    stmt.bind_value(1, Some(2i64))?;
    stmt.bind_value(2, Some("Bob"))?;
    stmt.bind_value(4, Some(&[0x69u8, 0x42u8][..]))?;
    stmt.bind_value(5, None::<&str>)?;
    assert!(stmt.step()?.is_done());
    Ok(())
}

fn bind_value_by_name(stmt: &mut Statement<'_>, name: &str, value: impl BindValue) -> Result<(), Error> {
    match stmt.bind_parameter_index(name) {
        Some(index) => stmt.bind_value(index, value),
        None => Err(Error::new(Code::RANGE, "no parameter of that name")),
    }
}

#[test]
fn tests_statement_bind_by_name() -> Result<(), Error> {
    let c = setup_users(":memory:")?;
    let mut stmt = c.prepare("INSERT INTO users VALUES (:id, :name, :age, :photo, :email)")?;

    bind_value_by_name(&mut stmt, ":id", 2i64)?;
    bind_value_by_name(&mut stmt, ":name", "Bob")?;
    bind_value_by_name(&mut stmt, ":photo", &[0x69u8, 0x42u8][..])?;
    bind_value_by_name(&mut stmt, ":email", Null)?;
    assert!(bind_value_by_name(&mut stmt, ":missing", 404i64).is_err());
    assert!(stmt.step()?.is_done());
    Ok(())
}

#[test]
fn tests_statement_parameter_index() -> Result<(), Error> {
    let c = setup_users(":memory:")?;
    let statement = "INSERT INTO users VALUES (:id, :name, :age, :photo, :email)";
    let mut stmt = c.prepare(statement)?;

    stmt.bind_value(stmt.bind_parameter_index(":id").unwrap(), 2)?;
    stmt.bind_value(stmt.bind_parameter_index(":name").unwrap(), "Bob")?;
    stmt.bind_value(
        stmt.bind_parameter_index(":photo").unwrap(),
        &[0x69u8, 0x42u8][..],
    )?;
    stmt.bind_value(stmt.bind_parameter_index(":email").unwrap(), Null)?;
    assert_eq!(stmt.bind_parameter_index(":missing"), None);
    assert!(stmt.step()?.is_done());
    Ok(())
}
