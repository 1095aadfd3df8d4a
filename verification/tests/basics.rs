use sqll::{Connection, Error, Null, Real, Value};

fn english(c: &mut Connection) -> Result<(), Error> {
    c.execute(
        r#"
        CREATE TABLE english (value TEXT);

        INSERT INTO english VALUES ('cerotype');
        INSERT INTO english VALUES ('metatype');
        INSERT INTO english VALUES ('ozotype');
        INSERT INTO english VALUES ('phenotype');
        INSERT INTO english VALUES ('plastotype');
        INSERT INTO english VALUES ('undertype');
        INSERT INTO english VALUES ('nonsence');
        "#,
    )?;

    Ok(())
}

fn users(c: &mut Connection) -> Result<(), Error> {
    c.execute(
        r#"
        CREATE TABLE users (id INTEGER, name TEXT, age REAL, photo BLOB, email TEXT);

        INSERT INTO users VALUES (1, 'Alice', 42.69, X'4269', NULL);
        "#,
    )?;

    Ok(())
}

#[test]
fn basics_connection_change_count() -> Result<(), Error> {
    let mut c = Connection::open_in_memory()?;
    users(&mut c)?;

    assert_eq!(c.changes(), 1);
    assert_eq!(c.total_changes(), 1);

    c.execute("INSERT INTO users VALUES (2, 'Bob', NULL, NULL, NULL)")?;
    assert_eq!(c.changes(), 1);
    assert_eq!(c.total_changes(), 2);

    c.execute("UPDATE users SET name = 'Bob' WHERE id = 1")?;
    assert_eq!(c.changes(), 1);
    assert_eq!(c.total_changes(), 3);

    c.execute("DELETE FROM users")?;
    assert_eq!(c.changes(), 2);
    assert_eq!(c.total_changes(), 5);
    Ok(())
}

#[test]
fn basics_statement_read_with_nullable() -> Result<(), Error> {
    let mut c = Connection::open_in_memory()?;
    users(&mut c)?;

    let mut stmt = c.prepare("SELECT * FROM users")?;

    assert!(stmt.step()?.is_row());
    assert_eq!(stmt.column::<Option<i64>>(0)?, Some(1));
    assert_eq!(
        stmt.column::<Option<String>>(1)?,
        Some(String::from("Alice"))
    );
    assert_eq!(
        stmt.column::<Option<Real>>(2)?.map(|r| f64::from_bits(r.to_bits())),
        Some(42.69)
    );
    assert_eq!(stmt.column::<Option<Vec<u8>>>(3)?, Some(vec![0x42, 0x69]));
    assert_eq!(stmt.column::<Option<String>>(4)?, None);
    assert!(stmt.step()?.is_done());
    Ok(())
}

#[test]
fn basics_statement_wildcard() -> Result<(), Error> {
    let mut c = Connection::open_in_memory()?;
    english(&mut c)?;

    let mut stmt = c.prepare("SELECT value FROM english WHERE value LIKE '%type'")?;

    let mut count = 0;

    while stmt.step()?.is_row() {
        count += 1;
    }

    assert_eq!(count, 6);
    Ok(())
}

#[test]
fn basics_statement_wildcard_with_binding() -> Result<(), Error> {
    let mut c = Connection::open_in_memory()?;
    english(&mut c)?;

    let mut stmt = c.prepare("SELECT value FROM english WHERE value LIKE ?")?;

    stmt.bind_value(1, "%type")?;

    let mut count = 0;

    while stmt.step()?.is_row() {
        count += 1;
    }

    assert_eq!(count, 6);
    Ok(())
}

#[test]
fn basics_statement_bind() -> Result<(), Error> {
    let mut c = Connection::open_in_memory()?;
    users(&mut c)?;

    let mut stmt = c.prepare("INSERT INTO users VALUES (?, ?, ?, ?, ?)")?;

    stmt.bind_value(1, 2i64)?;
    stmt.bind_value(2, "Bob")?;
    stmt.bind_value(4, &[0x69u8, 0x42u8][..])?;
    stmt.bind_value(5, Null)?;

    assert!(stmt.step()?.is_done());
    Ok(())
}

#[test]
fn basics_statement_parameter_index() -> Result<(), Error> {
    let mut c = Connection::open_in_memory()?;
    users(&mut c)?;

    let statement = "INSERT INTO users VALUES (:id, :name, :age, :photo, :email)";
    let mut stmt = c.prepare(statement)?;

    stmt.bind_value(stmt.bind_parameter_index(":id").unwrap(), 2)?;
    stmt.bind_value(stmt.bind_parameter_index(":name").unwrap(), "Bob")?;
    stmt.bind_value(
        stmt.bind_parameter_index(":photo").unwrap(),
        &[0x69u8, 0x42u8][..],
    )?;
    stmt.bind_value(stmt.bind_parameter_index(":email").unwrap(), Null)?;
    assert_eq!(stmt.bind_parameter_index(":missing"), None);
    assert!(stmt.step()?.is_done());
    Ok(())
}

#[test]
fn basics_statement_read() -> Result<(), Error> {
    let mut c = Connection::open_in_memory()?;
    users(&mut c)?;

    let mut stmt = c.prepare("SELECT * FROM users")?;

    assert!(stmt.step()?.is_row());
    assert_eq!(stmt.column::<i64>(0)?, 1);
    assert_eq!(stmt.column::<String>(1)?, String::from("Alice"));
    assert_eq!(f64::from_bits(stmt.column::<Real>(2)?.to_bits()), 42.69);
    assert_eq!(stmt.column::<Vec<u8>>(3)?, [0x42, 0x69]);
    assert_eq!(stmt.column::<Option<Value<'_>>>(4)?, None);
    assert!(stmt.step()?.is_done());
    Ok(())
}
