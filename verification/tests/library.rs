use sqll::archive::{EntryAction, Exclusions};
use sqll::derive::{
    plan_derive, plan_struct, Binding, FieldAttr, FieldInput, Member, NameLit, Site, What,
};
use sqll::value::Kind;
use sqll::statement::{clamp_count, column_indexes};
use sqll::Sink;
use sqll::{
    Code, Connection, DatabaseNotFound, Error, FixedBlob, FixedBytes, FixedText, Null,
    OpenOptions, Value,
};

fn memory() -> Connection {
    Connection::open_in_memory().expect("open")
}

#[test]
fn reset_keeps_bindings() -> Result<(), Error> {
    let c = memory();
    let mut stmt = c.prepare("SELECT ?")?;
    stmt.bind_value(1, 7i64)?;
    assert!(stmt.step()?.is_row());
    assert_eq!(stmt.column::<i64>(0)?, 7);
    stmt.reset()?;
    assert!(stmt.step()?.is_row());
    assert_eq!(stmt.column::<i64>(0)?, 7);
    Ok(())
}

#[test]
fn clear_bindings_makes_parameters_null() -> Result<(), Error> {
    let c = memory();
    let mut stmt = c.prepare("SELECT ?")?;
    stmt.bind_value(1, 7i64)?;
    stmt.clear_bindings()?;
    stmt.reset()?;
    assert!(stmt.step()?.is_row());
    assert_eq!(stmt.column::<Option<i64>>(0)?, None);
    assert_eq!(stmt.column::<Value>(0).unwrap_err().code(), Code::MISMATCH);
    Ok(())
}

#[test]
fn unbound_parameter_is_null() -> Result<(), Error> {
    let c = memory();
    let mut stmt = c.prepare("SELECT ?")?;
    assert!(stmt.step()?.is_row());
    assert_eq!(stmt.column::<Option<Value>>(0)?, None);
    let e = stmt.column::<Value>(0).unwrap_err();
    assert_eq!(e.message(), "dynamic value has unsupported column type NULL");
    Ok(())
}

#[test]
fn bind_tuple_binds_in_order() -> Result<(), Error> {
    let c = memory();
    let mut stmt = c.prepare("SELECT ?, ?, ?")?;
    stmt.bind((1i64, "two", Null))?;
    assert_eq!(
        stmt.next::<(i64, String, Option<i64>)>()?,
        Some((1, String::from("two"), None))
    );
    assert_eq!(stmt.next::<(i64, String, Option<i64>)>()?, None);
    Ok(())
}

#[test]
fn bind_single_value_binds_first_parameter() -> Result<(), Error> {
    let c = memory();
    c.execute(
        "CREATE TABLE measurements (value INTEGER);
         INSERT INTO measurements (value) VALUES (3), (2), (1);",
    )?;
    let mut stmt = c.prepare("SELECT COUNT(*) FROM measurements WHERE value > ?")?;
    stmt.bind(2i64)?;
    let mut it = stmt.iter::<i64>();
    assert_eq!(it.next(), Some(Ok(1)));
    assert_eq!(it.next(), None);
    Ok(())
}

#[test]
fn statement_execute_runs_to_completion() -> Result<(), Error> {
    let c = memory();
    c.execute(
        "CREATE TABLE users (name TEXT, age INTEGER);
         INSERT INTO users VALUES ('Alice', 42);
         INSERT INTO users VALUES ('Bob', 69);",
    )?;
    let mut stmt = c.prepare("UPDATE users SET age = age + 1")?;
    stmt.execute(())?;
    stmt.execute(())?;
    let mut query = c.prepare("SELECT age FROM users ORDER BY name")?;
    let mut results = Vec::new();
    let mut it = query.iter::<i64>();
    while let Some(row) = it.next() {
        results.push(row?);
    }
    assert_eq!(results, [44, 71]);
    Ok(())
}

#[test]
fn next_reads_rows_and_rebinding_restarts() -> Result<(), Error> {
    let c = memory();
    c.execute(
        "CREATE TABLE users (name TEXT, age INTEGER);
         INSERT INTO users VALUES ('Alice', 72);
         INSERT INTO users VALUES ('Bob', 40);",
    )?;
    let mut stmt = c.prepare("SELECT * FROM users WHERE age > ?")?;
    let mut results = Vec::new();
    for age in [30i64, 50] {
        stmt.bind(age)?;
        while let Some(row) = stmt.next::<(String, i64)>()? {
            results.push(row);
        }
    }
    assert_eq!(
        results,
        [
            (String::from("Alice"), 72),
            (String::from("Bob"), 40),
            (String::from("Alice"), 72)
        ]
    );
    Ok(())
}

#[test]
fn into_iter_owns_the_statement() -> Result<(), Error> {
    let c = memory();
    c.execute(
        "CREATE TABLE users (name TEXT, age INTEGER);
         INSERT INTO users VALUES ('Alice', 72);
         INSERT INTO users VALUES ('Bob', 40);",
    )?;
    let mut it = c
        .prepare("SELECT * FROM users WHERE age > 40")?
        .into_iter::<(String, i64)>();
    assert_eq!(it.next(), Some(Ok((String::from("Alice"), 72))));
    assert_eq!(it.next(), None);
    Ok(())
}

#[test]
fn row_reads_borrowed_columns() -> Result<(), Error> {
    let c = memory();
    c.execute(
        "CREATE TABLE users (name TEXT, age INTEGER);
         INSERT INTO users VALUES ('Alice', 72);
         INSERT INTO users VALUES ('Bob', 40);",
    )?;
    let mut stmt = c.prepare("SELECT name, age FROM users")?;
    assert!(stmt.step()?.is_row());
    assert_eq!(stmt.row::<(&str, i64)>()?, ("Alice", 72));
    assert!(stmt.step()?.is_row());
    assert_eq!(stmt.row::<(&str, i64)>()?, ("Bob", 40));
    assert!(stmt.step()?.is_done());
    Ok(())
}

#[test]
fn narrowing_read_out_of_range_fails() -> Result<(), Error> {
    let c = memory();
    let mut stmt = c.prepare("SELECT 300, -1, 5")?;
    assert!(stmt.step()?.is_row());
    let e = stmt.column::<i8>(0).unwrap_err();
    assert_eq!(e.code(), Code::MISMATCH);
    assert_eq!(e.message(), "integer 300 cannot be converted to i8");
    let e = stmt.column::<u8>(1).unwrap_err();
    assert_eq!(e.message(), "integer -1 cannot be converted to u8");
    let e = stmt.column::<u64>(1).unwrap_err();
    assert_eq!(e.message(), "integer -1 cannot be converted to u64");
    assert_eq!(stmt.column::<u8>(2)?, 5);
    assert_eq!(stmt.column::<i16>(0)?, 300);
    assert_eq!(stmt.column::<i128>(1)?, -1);
    Ok(())
}

#[test]
fn binding_integer_too_large_fails() -> Result<(), Error> {
    let c = memory();
    let mut stmt = c.prepare("SELECT ?")?;
    let e = stmt.bind_value(1, u64::MAX).unwrap_err();
    assert_eq!(e.code(), Code::MISMATCH);
    assert_eq!(
        e.message(),
        "value 18446744073709551615 cannot be converted to sqlite integer"
    );
    let e = stmt.bind_value(1, i128::MIN).unwrap_err();
    assert_eq!(
        e.message(),
        "value -170141183460469231731687303715884105728 cannot be converted to sqlite integer"
    );
    stmt.bind_value(1, 5u64)?;
    assert!(stmt.step()?.is_row());
    assert_eq!(stmt.column::<u64>(0)?, 5);
    Ok(())
}

#[test]
fn binding_index_zero_is_out_of_range() -> Result<(), Error> {
    let c = memory();
    let mut stmt = c.prepare("SELECT ?")?;
    let e = stmt.bind_value(0, "Bob").unwrap_err();
    assert_eq!(e.code(), Code::RANGE);
    Ok(())
}

#[test]
fn reading_the_wrong_type_fails() -> Result<(), Error> {
    let c = memory();
    let mut stmt = c.prepare("SELECT 'text'")?;
    assert!(stmt.step()?.is_row());
    let e = stmt.column::<i64>(0).unwrap_err();
    assert_eq!(e.code(), Code::MISMATCH);
    assert_eq!(e.message(), "expected column type INTEGER but found found TEXT");
    Ok(())
}

#[test]
fn reading_invalid_utf8_fails() -> Result<(), Error> {
    let c = memory();
    let mut stmt = c.prepare("SELECT CAST(X'FF' AS TEXT)")?;
    assert!(stmt.step()?.is_row());
    let e = stmt.column::<String>(0).unwrap_err();
    assert_eq!(e.code(), Code::MISMATCH);
    assert_eq!(e.message(), "column is not valid UTF-8");
    assert!(stmt.column::<&str>(0).is_err());
    assert!(stmt.column::<Value>(0).is_err());
    assert!(stmt.column::<FixedText<4>>(0).is_err());
    Ok(())
}

#[test]
fn fixed_blob_column_capacity() -> Result<(), Error> {
    let c = memory();
    let mut stmt = c.prepare("SELECT X'4269'")?;
    assert!(stmt.step()?.is_row());
    let e = stmt.column::<FixedBlob<1>>(0).unwrap_err();
    assert_eq!(e.code(), Code::MISMATCH);
    assert_eq!(e.message(), "size 2 exceeds fixed buffer size 1");
    let b = stmt.column::<FixedBlob<2>>(0)?;
    assert_eq!(b.as_slice(), &[0x42, 0x69]);
    assert_eq!(b.into_bytes(), Some([0x42, 0x69]));
    Ok(())
}

#[test]
fn fixed_text_column() -> Result<(), Error> {
    let c = memory();
    let mut stmt = c.prepare("SELECT 'abc'")?;
    assert!(stmt.step()?.is_row());
    let t = stmt.column::<FixedText<3>>(0)?;
    assert_eq!(t.as_text(), b"abc");
    assert_eq!(t.to_str(), Some("abc"));
    let e = stmt.column::<FixedText<2>>(0).unwrap_err();
    assert_eq!(e.message(), "size 3 exceeds fixed buffer size 2");
    Ok(())
}

#[test]
fn fixed_buffers() {
    let e = FixedBlob::<3>::try_from_slice(b"abcd").unwrap_err();
    assert_eq!(e.len(), 4);
    assert_eq!(e.max(), 3);
    assert_eq!(e.message(), "size 4 exceeds fixed buffer size 3");
    let b = FixedBlob::<3>::try_from_slice(b"ab").unwrap();
    assert_eq!(b.len(), 2);
    assert_eq!(b.clone().into_bytes(), None);
    assert_eq!(FixedBlob::from_array([1u8, 2, 3]).into_bytes(), Some([1, 2, 3]));
    assert!(FixedBlob::<4>::new().is_empty());
    assert_eq!(
        FixedBytes::<3>::try_from_slice(b"abcd").unwrap_err().message(),
        "size 4 exceeds fixed buffer size 3"
    );
    assert_eq!(FixedBytes::<5>::try_from_slice(b"abcd").unwrap().as_slice(), b"abcd");
    assert_eq!(FixedBytes::<3>::try_from_slice(b"abc").unwrap().into_bytes(), Some(*b"abc"));
    assert_eq!(FixedText::<3>::new().as_text(), b"");
    assert_eq!(
        FixedText::<2>::try_from_str("abc").unwrap_err().message(),
        "size 3 exceeds fixed buffer size 2"
    );
    let t = FixedText::from_inner(FixedBlob::<2>::try_from_slice(&[0xff]).unwrap());
    assert_eq!(t.to_str(), None);
}

#[test]
fn bound_values_read_back() -> Result<(), Error> {
    let c = memory();
    let mut stmt = c.prepare("SELECT ?, ?, ?, ?, ?")?;
    let blob = FixedBlob::<2>::from_array([1, 2]);
    let text = FixedText::<5>::try_from_str("hello").unwrap();
    stmt.bind((-3i32, String::from("s"), vec![9u8], blob, text))?;
    assert!(stmt.step()?.is_row());
    assert_eq!(stmt.column::<i32>(0)?, -3);
    assert_eq!(stmt.column::<String>(1)?, "s");
    assert_eq!(stmt.column::<Vec<u8>>(2)?, [9]);
    assert_eq!(stmt.column::<&[u8]>(3)?, &[1, 2]);
    assert_eq!(stmt.column::<&str>(4)?, "hello");
    let v = stmt.column::<Value>(0)?;
    assert_eq!(v.as_integer(), Some(-3));
    assert_eq!(v.kind(), Kind::Integer(-3));
    assert_eq!(stmt.column::<Value>(1)?.as_text(), Some("s"));
    assert_eq!(stmt.column::<Value>(2)?.as_blob(), Some(&[9u8][..]));
    Ok(())
}

#[test]
fn code_round_trip() {
    assert_eq!(Code::new(1), Code::ERROR);
    assert_eq!(Code::new(2067), Code::CONSTRAINT_UNIQUE);
    assert_eq!(Code::CONSTRAINT_UNIQUE.raw(), 2067);
    assert_eq!(Code::new(517), Code::Other(517));
    assert_eq!(Code::new(517).raw(), 517);
    assert_eq!(Code::new(Code::MISUSE.raw()), Code::MISUSE);
}

#[test]
fn errors() {
    let e = Error::custom("boom");
    assert_eq!(e.code(), Code::ERROR);
    assert_eq!(e.message(), "boom");
    let e = Error::new(Code::BUSY, "busy");
    assert_eq!(e.code(), Code::BUSY);
    let c = memory();
    let e: DatabaseNotFound = c.database_read_only("missing").unwrap_err();
    assert_eq!(e.message(), "database not found");
}

#[test]
fn open_path_with_nul_is_misuse() {
    match Connection::open("a\0b") {
        Ok(_) => panic!("a path with NUL was opened"),
        Err(e) => {
            assert_eq!(e.code(), Code::MISUSE);
            assert_eq!(e.message(), "path utf-8 contains internal null");
        },
    }
}

#[test]
fn prepare_more_than_one_statement_fails() {
    let c = memory();
    match c.prepare("SELECT 1; SELECT 2") {
        Ok(_) => panic!("two statements were prepared as one"),
        Err(e) => assert_eq!(e.code(), Code::ERROR),
    };
}

#[test]
fn connection_settings() -> Result<(), Error> {
    let mut c = memory();
    assert_eq!(c.database_read_only("main").unwrap(), false);
    assert!(c.database_read_only("missing").is_err());
    c.busy_timeout(100)?;
    c.busy_timeout(-1)?;
    c.busy_handler(|attempts| attempts < 3)?;
    c.clear_busy_handler()?;
    c.execute("CREATE TABLE t (x INTEGER); INSERT INTO t VALUES (1); INSERT INTO t VALUES (2);")?;
    assert_eq!(c.last_insert_rowid(), 2);
    Ok(())
}

#[test]
fn parameter_names() -> Result<(), Error> {
    let c = memory();
    let stmt = c.prepare("SELECT :name, :age")?;
    assert_eq!(stmt.bind_parameter_index(":name"), Some(1));
    assert_eq!(stmt.bind_parameter_index(":age"), Some(2));
    assert_eq!(stmt.bind_parameter_index(":asdf"), None);
    assert_eq!(stmt.bind_parameter_name(2), Some(":age"));
    assert_eq!(stmt.bind_parameter_name(0), None);
    assert_eq!(stmt.columns(), [0, 1]);
    Ok(())
}

#[test]
fn open_options_flags() {
    let mut o = OpenOptions::new();
    assert_eq!(o.raw(), 0x10000 | 0x2000000);
    o.read_only();
    assert_eq!(o.raw(), 0x10000 | 0x2000000 | 1);
    o.read_only();
    assert_eq!(o.raw(), 0x10000 | 0x2000000 | 1);
}

fn field(ident: Option<&str>, attrs: Vec<FieldAttr>) -> FieldInput {
    FieldInput {
        ident: ident.map(String::from),
        attrs,
    }
}

#[test]
fn derive_plain_fields_are_consecutive() {
    let fields = vec![field(Some("a"), vec![]), field(Some("b"), vec![])];
    let plan = plan_struct(&fields, false, What::Bind);
    assert!(plan.complete && plan.problems.is_empty());
    assert_eq!(plan.fields[0].member, Member::Named(String::from("a")));
    assert_eq!(plan.fields[0].binding, Binding::Index(1));
    assert_eq!(plan.fields[1].binding, Binding::Index(2));
    let plan = plan_struct(&fields, false, What::Row);
    assert_eq!(plan.fields[0].binding, Binding::Index(0));
    assert_eq!(plan.fields[1].binding, Binding::Index(1));
}

#[test]
fn derive_index_and_names() {
    let fields = vec![
        field(None, vec![FieldAttr::Index(4)]),
        field(None, vec![]),
        field(Some("c"), vec![FieldAttr::Name(NameLit::Str(String::from(":x")))]),
        field(Some("d"), vec![]),
    ];
    let plan = plan_struct(&fields, false, What::Bind);
    assert_eq!(plan.fields[0].member, Member::Unnamed(0));
    assert_eq!(plan.fields[0].binding, Binding::Index(4));
    assert_eq!(plan.fields[1].member, Member::Unnamed(1));
    assert_eq!(plan.fields[1].binding, Binding::Index(5));
    assert_eq!(plan.fields[2].binding, Binding::Name(b":x".to_vec()));
    assert_eq!(plan.fields[3].binding, Binding::Index(6));
    let plan = plan_struct(&fields, true, What::Bind);
    assert_eq!(plan.fields.len(), 2);
    assert_eq!(plan.fields[1].binding, Binding::Name(b":d".to_vec()));
    assert_eq!(plan.problems.len(), 2);
    assert_eq!(plan.problems[0].message, "named fields require field names derive");
    assert_eq!(plan.problems[0].site, Site::FieldType(0));
}

#[test]
fn derive_documented_indexes() {
    let fields = vec![
        field(Some("name"), vec![FieldAttr::Index(2)]),
        field(Some("age"), vec![FieldAttr::Index(1)]),
    ];
    let plan = plan_struct(&fields, false, What::Bind);
    assert_eq!(plan.fields[0].binding, Binding::Index(2));
    assert_eq!(plan.fields[1].binding, Binding::Index(1));
    let fields = vec![
        field(None, vec![FieldAttr::Index(1)]),
        field(None, vec![FieldAttr::Index(0)]),
    ];
    let plan = plan_struct(&fields, false, What::Row);
    assert_eq!(plan.fields[0].member, Member::Unnamed(0));
    assert_eq!(plan.fields[0].binding, Binding::Index(1));
    assert_eq!(plan.fields[1].member, Member::Unnamed(1));
    assert_eq!(plan.fields[1].binding, Binding::Index(0));
}

#[test]
fn derive_problems() {
    let fields = vec![field(
        Some("a"),
        vec![FieldAttr::Name(NameLit::Str(String::from("x\0y")))],
    )];
    let plan = plan_struct(&fields, false, What::Bind);
    assert!(plan.fields.is_empty());
    assert_eq!(
        plan.problems[0].message,
        "custom field name \"x\\0y\" contains interior null byte"
    );
    let fields = vec![field(
        Some("a"),
        vec![
            FieldAttr::Name(NameLit::CStr(b"x".to_vec())),
            FieldAttr::Name(NameLit::CStr(b"y".to_vec())),
        ],
    )];
    let plan = plan_struct(&fields, false, What::Bind);
    assert!(!plan.complete);
    assert_eq!(plan.problems[0].message, "duplicate `name` attribute for field");
    let fields = vec![field(None, vec![FieldAttr::Index(usize::MAX)])];
    let plan = plan_struct(&fields, false, What::Bind);
    assert_eq!(
        plan.problems[0].message,
        format!("underlying index {} is too large for a c_int", usize::MAX)
    );
    let plan = plan_struct(&fields, false, What::Row);
    assert_eq!(
        plan.problems[0].message,
        format!("underlying index {} is too large for a c_int", usize::MAX)
    );
    let plan = plan_derive(false, &vec![], false, What::Row);
    assert_eq!(plan.problems[0].message, "Row can only be derived for structs");
    assert_eq!(What::Bind.offset_index(), 1);
    assert_eq!(What::Row.offset_index(), 0);
}

#[test]
fn archive_entries() {
    let none = Exclusions::new(vec![]).unwrap();
    assert_eq!(
        sqll::archive::plan_entry("sqlite-3.45/src/main.c", false, &none),
        EntryAction::WriteFile(vec![String::from("src"), String::from("main.c")])
    );
    assert_eq!(
        sqll::archive::plan_entry("sqlite-3.45/./src//", true, &none),
        EntryAction::CreateDir(vec![String::from("src")])
    );
    assert_eq!(sqll::archive::plan_entry("sqlite-3.45/", true, &none), EntryAction::Skip);
    assert_eq!(sqll::archive::plan_entry("", false, &none), EntryAction::Skip);
    assert_eq!(
        sqll::archive::plan_entry("//top///a/.b/..c", false, &none),
        EntryAction::WriteFile(vec![String::from("a"), String::from(".b"), String::from("..c")])
    );
    assert_eq!(
        sqll::archive::plan_entry("top/a/../../etc/passwd", false, &none),
        EntryAction::Skip
    );
    let ex = Exclusions::new(vec![String::from("^test/.*$")]).unwrap();
    assert_eq!(sqll::archive::plan_entry("top/test/a.c", false, &ex), EntryAction::Skip);
    assert_eq!(
        sqll::archive::plan_entry("top/src/a.c", false, &ex),
        EntryAction::WriteFile(vec![String::from("src"), String::from("a.c")])
    );
    assert!(Exclusions::new(vec![String::from("(")]).is_err());
}

#[test]
fn sink_appends_columns() -> Result<(), Error> {
    let c = memory();
    let mut stmt = c.prepare("SELECT 'abc', X'0102', 5")?;
    assert!(stmt.step()?.is_row());
    let mut s = String::from(">");
    s.write(&stmt, 0)?;
    s.write(&stmt, 0)?;
    assert_eq!(s, ">abcabc");
    let mut v = vec![9u8];
    v.write(&stmt, 1)?;
    assert_eq!(v, [9, 1, 2]);
    let e = v.write(&stmt, 2).unwrap_err();
    assert_eq!(e.code(), Code::MISMATCH);
    assert_eq!(e.message(), "expected column type BLOB but found found INTEGER");
    assert_eq!(v, [9, 1, 2]);
    Ok(())
}

#[test]
fn unsized_columns_borrow() -> Result<(), Error> {
    let c = memory();
    let mut stmt = c.prepare("SELECT 'Alice', X'4269'")?;
    assert!(stmt.step()?.is_row());
    assert_eq!(stmt.unsized_column::<str>(0)?, "Alice");
    assert_eq!(stmt.unsized_column::<[u8]>(1)?, &[0x42, 0x69]);
    assert_eq!(stmt.unsized_column::<str>(1).unwrap_err().code(), Code::MISMATCH);
    Ok(())
}

#[test]
fn library_version() {
    let n = sqll::lib_version_number();
    assert!((3000000..4000000).contains(&n));
    let parts: Vec<i32> = sqll::lib_version()
        .split('.')
        .map(|p| p.parse().unwrap())
        .collect();
    assert_eq!(parts[0] * 1000000 + parts[1] * 1000 + parts[2], n);
}

#[test]
fn no_row_reads_null() -> Result<(), Error> {
    let c = memory();
    let mut stmt = c.prepare("SELECT 1")?;
    assert_eq!(stmt.column::<Option<i64>>(0)?, None);
    assert!(stmt.step()?.is_row());
    assert_eq!(stmt.column::<Option<i64>>(5)?, None);
    assert_eq!(stmt.column::<i64>(0)?, 1);
    assert!(stmt.step()?.is_done());
    assert_eq!(stmt.column::<Option<i64>>(0)?, None);
    Ok(())
}

fn users() -> Connection {
    let c = memory();
    c.execute(
        "CREATE TABLE users (id INTEGER, name TEXT, age REAL, photo BLOB, email TEXT);
         INSERT INTO users VALUES (1, 'Alice', 42.69, X'4269', NULL);",
    )
    .expect("setup");
    c
}

#[test]
fn binding_values_by_index() -> Result<(), Error> {
    let c = users();
    let mut stmt = c.prepare("INSERT INTO users VALUES (?, ?, ?, ?, ?)")?;
    stmt.bind_value(1, 2i64)?;
    stmt.bind_value(2, "Bob")?;
    stmt.bind_value(3, Null)?;
    stmt.bind_value(4, &[0x69u8, 0x42u8][..])?;
    stmt.bind_value(5, None::<&str>)?;
    assert!(stmt.step()?.is_done());
    let mut q = c.prepare("SELECT id, name, photo FROM users WHERE id = 2")?;
    assert_eq!(
        q.next::<(i64, String, Vec<u8>)>()?,
        Some((2, String::from("Bob"), vec![0x69, 0x42]))
    );
    Ok(())
}

#[test]
fn binding_values_by_parameter_name() -> Result<(), Error> {
    let c = users();
    let mut stmt = c.prepare("INSERT INTO users VALUES (:id, :name, :age, :photo, :email)")?;
    let id = stmt.bind_parameter_index(":id").unwrap();
    stmt.bind_value(id, Some(2i64))?;
    let name = stmt.bind_parameter_index(":name").unwrap();
    stmt.bind_value(name, Some("Bob"))?;
    let photo = stmt.bind_parameter_index(":photo").unwrap();
    stmt.bind_value(photo, Some(&[0x69u8, 0x42u8][..]))?;
    assert_eq!(stmt.bind_parameter_index(":missing"), None);
    assert!(stmt.step()?.is_done());
    assert_eq!(c.changes(), 1);
    Ok(())
}

#[test]
fn row_reads_what_columns_read() -> Result<(), Error> {
    let c = memory();
    let mut stmt = c.prepare("SELECT 7, 'x', NULL")?;
    assert!(stmt.step()?.is_row());
    let pair = stmt.row::<(i64, String)>()?;
    assert_eq!(pair, (stmt.column::<i64>(0)?, stmt.column::<String>(1)?));
    assert_eq!(stmt.row::<i64>()?, stmt.column::<i64>(0)?);
    assert_eq!(stmt.row::<(i64, String, i64)>().unwrap_err().code(), Code::MISMATCH);
    assert_eq!(stmt.column::<i64>(2).unwrap_err().code(), Code::MISMATCH);
    Ok(())
}

#[test]
fn execute_stops_at_first_failure() -> Result<(), Error> {
    let c = memory();
    c.execute("CREATE TABLE t (x INTEGER)")?;
    let e = c
        .execute("INSERT INTO t VALUES (1); bogus; INSERT INTO t VALUES (2);")
        .unwrap_err();
    assert_eq!(e.code(), Code::ERROR);
    let mut q = c.prepare("SELECT x FROM t")?;
    assert_eq!(q.next::<i64>()?, Some(1));
    assert_eq!(q.next::<i64>()?, None);
    Ok(())
}

#[test]
fn prepare_needs_exactly_one_statement() {
    let c = memory();
    for sql in ["", "   ", "-- note", "CREATE TABLE test (id INTEGER) /* test */; INSERT INTO test (id) VALUES (1);"] {
        match c.prepare(sql) {
            Ok(_) => panic!("prepared {sql:?}"),
            Err(e) => assert_eq!(e.code(), Code::ERROR),
        };
    }
}

#[test]
fn busy_settings_and_counts() -> Result<(), Error> {
    let mut c = memory();
    c.busy_timeout(10)?;
    c.busy_handler(|_| false)?;
    c.clear_busy_handler()?;
    assert_eq!(sqll::connection::saturate_count(5), 5);
    assert_eq!(sqll::connection::saturate_count(u64::MAX), usize::MAX);
    Ok(())
}

#[test]
fn batches_run_in_order_and_check_single() -> Result<(), Error> {
    let c = memory();
    let mut b = c.batch("CREATE TABLE t (x INTEGER); INSERT INTO t VALUES (7);");
    sqll::batch::run_batch(&mut b)?;
    drop(b);
    let mut q = c.prepare("SELECT x FROM t")?;
    assert_eq!(q.next::<i64>()?, Some(7));

    let mut b = c.batch("");
    sqll::batch::run_batch(&mut b)?;
    c.execute("")?;

    let mut b = c.batch("SELECT 1");
    sqll::batch::check_single(&mut b)?;
    let mut b = c.batch("SELECT 1; SELECT 2");
    let e = sqll::batch::check_single(&mut b).unwrap_err();
    assert_eq!(e.code(), Code::ERROR);
    assert_eq!(e.message(), "SQL logic error");
    let mut b = c.batch("");
    let e = sqll::batch::check_single(&mut b).unwrap_err();
    assert_eq!(e.code(), Code::ERROR);
    let mut b = c.batch("bogus");
    let e = sqll::batch::check_single(&mut b).unwrap_err();
    assert_eq!(e.code(), Code::ERROR);
    assert_ne!(e.message(), "SQL logic error");
    match c.prepare("") {
        Ok(_) => panic!("prepared an empty text"),
        Err(e) => assert_eq!(e.message(), "SQL logic error"),
    }
    Ok(())
}

#[test]
fn column_counts_and_indexes() -> Result<(), Error> {
    assert_eq!(clamp_count(3), 3);
    assert_eq!(clamp_count(usize::MAX), i32::MAX);
    assert_eq!(column_indexes(3), vec![0, 1, 2]);
    assert_eq!(column_indexes(0), Vec::<i32>::new());
    assert_eq!(column_indexes(-2), Vec::<i32>::new());
    let c = memory();
    let s = c.prepare("SELECT 1, 2, 3")?;
    assert_eq!(s.column_count(), 3);
    assert_eq!(s.columns(), vec![0, 1, 2]);
    Ok(())
}
