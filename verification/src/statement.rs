//! Prepared statements.

use vstd::prelude::*;
use vstd::string::StringSliceAdditionalSpecFns;

use crate::bind::{Bind, BindValue};
use crate::code::Code;
use crate::from_column::{borrow_as, read_as, FromColumn, FromUnsizedColumn};
use crate::row::Row;
use crate::ty::Type;
use crate::engine;
use crate::engine::Failure;
use crate::error::{failure_code, Error};
use crate::state::State;
use crate::value::{cell_type, Cell, ColumnValue, ValueType};

verus! {

/// The most steps a statement is run for by `Statement::execute` and by
/// the statements of a batch before they give up with `ABORT`. No statement
/// reaches it in practice; it bounds the loops so that they provably end.
pub const MAX_STEPS: u64 = 0xffff_ffff_ffff_ffffu64;

/// The value in column `index` of a row: the value itself when the row has
/// such a column, and NULL when there is no row or no such column.
pub open spec fn cell_at(row: Option<Seq<Cell>>, index: int) -> Cell {
    match row {
        Some(cells) => if 0 <= index < cells.len() {
            cells[index]
        } else {
            Cell::Null
        },
        None => Cell::Null,
    }
}

/// What a failed binding of parameter `index` leaves of the values
/// recorded before: SQLite rejects an index out of range before it touches
/// anything, but may fail to take a text or blob after it has set the
/// parameter to NULL.
pub open spec fn after_failed_bind(before: Map<i32, Cell>, after: Map<i32, Cell>, index: i32) -> bool {
    after == before || after == before.insert(index, Cell::Null)
}

/// A count as an `i32`: the count itself, or `i32::MAX` where it does not
/// fit.
pub open spec fn clamped(n: usize) -> i32 {
    if n > 0x7fff_ffff {
        0x7fff_ffff
    } else {
        n as i32
    }
}

/// A count as an `i32`, saturating at `i32::MAX`.
pub fn clamp_count(n: usize) -> (r: i32)
    ensures
        r == clamped(n),
{
    if n > 0x7fff_ffff {
        0x7fff_ffff
    } else {
        n as i32
    }
}

/// The indexes of `n` columns, `0` to `n - 1` in order; none when `n` is
/// not positive.
pub fn column_indexes(n: i32) -> (r: Vec<i32>)
    ensures
        r@.len() == (if n < 0 {
            0
        } else {
            n as int
        }),
        forall|i: int| 0 <= i < r@.len() ==> r@[i] == i,
{
    let mut r: Vec<i32> = Vec::new();
    let mut i: i32 = 0;
    while i < n
        invariant
            0 <= i,
            n >= 0 ==> i <= n,
            n < 0 ==> i == 0,
            r@.len() == i,
            forall|j: int| 0 <= j < r@.len() ==> r@[j] == j,
        decreases n - i,
    {
        r.push(i);
        i = i + 1;
    }
    r
}

/// Step a statement until it reports that it is done, throwing away the
/// rows it produces.
pub(crate) fn finish(stmt: &mut Statement<'_>) -> (r: Result<(), Error>)
    ensures
        r is Ok <==> final(stmt).last_step() == Some(Ok::<State, Error>(State::Done)),
        r is Ok ==> final(stmt).current_row() is None,
        final(stmt).last_step() matches Some(Err(e)) ==> r == Err::<(), Error>(e),
        final(stmt).last_step() is Some,
        final(stmt).last_step() == Some(Ok::<State, Error>(State::Row)) ==> (r matches Err(e)
            && e.code_spec() == Code::ABORT),
{
    let mut steps: u64 = 0;
    match stmt.step()? {
        State::Done => return Ok(()),
        State::Row => {},
    }
    loop
        invariant
            stmt.last_step() == Some(Ok::<State, Error>(State::Row)),
        decreases MAX_STEPS - steps,
    {
        if steps == MAX_STEPS {
            return Err(Error::new(Code::ABORT, "statement did not finish"));
        }
        steps = steps + 1;
        match stmt.step()? {
            State::Done => return Ok(()),
            State::Row => {},
        }
    }
}

/// A prepared statement.
///
/// A statement is stepped through the rows it produces with `step` or,
/// at a higher level, `next`; the current row is read with `column` and
/// `row`. Parameters are bound with `bind_value` and `bind`; bindings are
/// sticky across `reset` and are cleared with `clear_bindings`.
///
/// The current row is read from SQLite as the statement steps onto it and
/// held as plain values, so that reading a column is checked and decoded
/// by verified code.
pub struct Statement<'conn> {
    pub(crate) handle: rusqlite::Statement<'conn>,
    pub(crate) row: Option<Vec<ColumnValue>>,
    pub(crate) bound: Ghost<Map<i32, Cell>>,
    pub(crate) stepped: Ghost<Option<Result<State, Error>>>,
    pub(crate) width: Ghost<nat>,
}

impl<'conn> Statement<'conn> {
    /// The values of the current row: `None` before the first step, after
    /// a step reports the end or an error, and after a reset.
    pub closed spec fn current_row(&self) -> Option<Seq<Cell>> {
        match self.row {
            Some(v) => Some(v@.map_values(|c: ColumnValue| c@)),
            None => None,
        }
    }

    /// The values handed to SQLite for the parameters, by index, since the
    /// statement was prepared or its bindings were last cleared. A parameter
    /// with no entry is NULL.
    pub closed spec fn bindings(&self) -> Map<i32, Cell> {
        self.bound@
    }

    /// What the last step reported, since the statement was prepared or
    /// last reset: `None` when it has not been stepped since.
    pub closed spec fn last_step(&self) -> Option<Result<State, Error>> {
        self.stepped@
    }

    /// The number of columns that rusqlite reported for the result set when
    /// the statement last stepped onto a row.
    pub closed spec fn row_width(&self) -> nat {
        self.width@
    }

    /// The value in column `index` of the current row (NULL where there is
    /// none).
    pub open spec fn column_at(&self, index: int) -> Cell {
        cell_at(self.current_row(), index)
    }

    /// A freshly prepared statement.
    pub(crate) fn from_handle(handle: rusqlite::Statement<'conn>) -> (s: Statement<'conn>)
        ensures
            s.current_row() is None,
            s.bindings() == Map::<i32, Cell>::empty(),
            s.last_step() is None,
    {
        Statement { handle, row: None, bound: Ghost(Map::empty()), stepped: Ghost(None), width: Ghost(0) }
    }

    /// The stored value of column `index` of the current row, if the
    /// statement is on a row that has such a column.
    pub(crate) fn column_value(&self, index: i32) -> (r: Option<&ColumnValue>)
        ensures
            match r {
                Some(c) => self.column_at(index as int) == c@ && self.current_row() is Some
                    && 0 <= index < self.current_row()->Some_0.len(),
                None => self.column_at(index as int) == Cell::Null && (self.current_row() is None
                    || !(0 <= index < self.current_row()->Some_0.len())),
            },
    {
        match &self.row {
            Some(cells) => {
                if 0 <= index && (index as usize) < cells.len() {
                    Some(&cells[index as usize])
                } else {
                    None
                }
            },
            None => None,
        }
    }

    /// Step the statement.
    ///
    /// When step returns `State::Row` a row is ready to read from the
    /// statement; when it returns `State::Done` no more rows are available.
    /// Reading a column of a statement that is not on a row reads NULL.
    /// The row is read column by column as the statement comes to it, one
    /// cell for each column of the result set, whatever the values; should
    /// rusqlite refuse a column, the step fails.
    pub fn step(&mut self) -> (r: Result<State, Error>)
        ensures
            final(self).bindings() == old(self).bindings(),
            final(self).last_step() == Some(r),
            (r == Ok::<State, Error>(State::Row)) <==> final(self).current_row() is Some,
            r == Ok::<State, Error>(State::Row) ==> final(self).current_row()->Some_0.len()
                == final(self).row_width(),
    {
        let mut rows = engine::raw_query(&mut self.handle);
        let out = match engine::rows_next(&mut rows) {
            Ok(Some(row)) => {
                let width = engine::column_count(engine::row_statement(row));
                let mut cells: Vec<ColumnValue> = Vec::new();
                let mut i: usize = 0;
                let mut refused = false;
                while i < width
                    invariant
                        i <= width,
                        !refused ==> cells@.len() == i,
                    ensures
                        !refused ==> cells@.len() == width,
                    decreases width - i,
                {
                    match engine::row_value(row, i) {
                        Some(c) => cells.push(c),
                        None => {
                            refused = true;
                            break;
                        },
                    }
                    i = i + 1;
                }
                if refused {
                    Err(Failure { code: None, message: String::from_str("column could not be read") })
                } else {
                    Ok(Some((cells, width)))
                }
            },
            Ok(None) => Ok(None),
            Err(f) => Err(f),
        };
        engine::keep_row(rows);
        let r = match out {
            Ok(Some((cells, width))) => {
                self.row = Some(cells);
                self.width = Ghost(width as nat);
                Ok(State::Row)
            },
            Ok(None) => {
                self.row = None;
                Ok(State::Done)
            },
            Err(f) => {
                self.row = None;
                Err(Error::from_failure(f))
            },
        };
        self.stepped = Ghost(Some(r));
        r
    }

    /// Reset the statement allowing it to be re-executed. The next step
    /// starts over from the first row. Bindings are kept; use
    /// `clear_bindings` to reset them.
    pub fn reset(&mut self) -> (r: Result<(), Error>)
        ensures
            r is Ok,
            final(self).current_row() is None,
            final(self).bindings() == old(self).bindings(),
            final(self).last_step() is None,
    {
        {
            // Dropping the rows object resets the statement.
            let _rows = engine::raw_query(&mut self.handle);
        }
        self.row = None;
        self.stepped = Ghost(None);
        Ok(())
    }

    /// Reset all parameters to NULL.
    pub fn clear_bindings(&mut self) -> (r: Result<(), Error>)
        ensures
            r is Ok,
            final(self).current_row() == old(self).current_row(),
            final(self).last_step() == old(self).last_step(),
            final(self).bindings() == Map::<i32, Cell>::empty(),
    {
        engine::clear_bindings(self);
        Ok(())
    }

    /// Hand NULL to SQLite for parameter `index`.
    pub(crate) fn bind_null(&mut self, index: i32) -> (r: Result<(), Error>)
        ensures
            final(self).current_row() == old(self).current_row(),
            final(self).last_step() == old(self).last_step(),
            r is Ok ==> final(self).bindings() == old(self).bindings().insert(index, Cell::Null),
            r is Err ==> after_failed_bind(old(self).bindings(), final(self).bindings(), index),
    {
        match engine::bind_parameter(self, index, engine::Param::Null) {
            Ok(()) => Ok(()),
            Err(f) => Err(Error::from_failure(f)),
        }
    }

    /// Hand an integer to SQLite for parameter `index`.
    pub(crate) fn bind_integer(&mut self, index: i32, value: i64) -> (r: Result<(), Error>)
        ensures
            final(self).current_row() == old(self).current_row(),
            final(self).last_step() == old(self).last_step(),
            r is Ok ==> final(self).bindings() == old(self).bindings().insert(index, Cell::Integer(value)),
            r is Err ==> after_failed_bind(old(self).bindings(), final(self).bindings(), index),
    {
        match engine::bind_parameter(self, index, engine::Param::Integer(value)) {
            Ok(()) => Ok(()),
            Err(f) => Err(Error::from_failure(f)),
        }
    }

    /// Hand a text to SQLite for parameter `index`.
    pub(crate) fn bind_text(&mut self, index: i32, value: &str) -> (r: Result<(), Error>)
        ensures
            final(self).current_row() == old(self).current_row(),
            final(self).last_step() == old(self).last_step(),
            r is Ok ==> final(self).bindings() == old(self).bindings().insert(index, Cell::Text(value.spec_bytes())),
            r is Err ==> after_failed_bind(old(self).bindings(), final(self).bindings(), index),
    {
        match engine::bind_parameter(self, index, engine::Param::Text(value.as_bytes())) {
            Ok(()) => Ok(()),
            Err(f) => Err(Error::from_failure(f)),
        }
    }

    /// Hand the bytes of a text to SQLite for parameter `index`.
    pub(crate) fn bind_text_bytes(&mut self, index: i32, value: &[u8]) -> (r: Result<(), Error>)
        ensures
            final(self).current_row() == old(self).current_row(),
            final(self).last_step() == old(self).last_step(),
            r is Ok ==> final(self).bindings() == old(self).bindings().insert(index, Cell::Text(value@)),
            r is Err ==> after_failed_bind(old(self).bindings(), final(self).bindings(), index),
    {
        match engine::bind_parameter(self, index, engine::Param::Text(value)) {
            Ok(()) => Ok(()),
            Err(f) => Err(Error::from_failure(f)),
        }
    }

    /// Hand a blob to SQLite for parameter `index`.
    pub(crate) fn bind_blob(&mut self, index: i32, value: &[u8]) -> (r: Result<(), Error>)
        ensures
            final(self).current_row() == old(self).current_row(),
            final(self).last_step() == old(self).last_step(),
            r is Ok ==> final(self).bindings() == old(self).bindings().insert(index, Cell::Blob(value@)),
            r is Err ==> after_failed_bind(old(self).bindings(), final(self).bindings(), index),
    {
        match engine::bind_parameter(self, index, engine::Param::Blob(value)) {
            Ok(()) => Ok(()),
            Err(f) => Err(Error::from_failure(f)),
        }
    }

    /// Bind a value to a parameter by index; the first parameter has index
    /// 1, and SQLite rejects index 0 with `RANGE`.
    ///
    /// Bindings are sticky and are not cleared when the statement is reset;
    /// use `clear_bindings` for that. A parameter that is not bound is NULL.
    pub fn bind_value<V: BindValue>(&mut self, index: i32, value: V) -> (r: Result<(), Error>)
        ensures
            final(self).current_row() == old(self).current_row(),
            final(self).last_step() == old(self).last_step(),
            match value.bound_cell() {
                Some(c) => if r is Ok {
                    final(self).bindings() == old(self).bindings().insert(index, c)
                } else {
                    after_failed_bind(old(self).bindings(), final(self).bindings(), index)
                },
                None => r matches Err(e) && value.refused_with(e) && final(self).bindings()
                    == old(self).bindings(),
            },
    {
        value.bind_value(self, index)
    }

    /// Reset the statement and bind `value`: a single value binds the first
    /// parameter, a tuple binds its elements in order from the first.
    pub fn bind<B: Bind>(&mut self, value: B) -> (r: Result<(), Error>)
        ensures
            final(self).current_row() is None,
            final(self).last_step() is None,
            r is Ok ==> value.bind_spec(old(self).bindings()) == Some(final(self).bindings()),
            value.bind_spec(old(self).bindings()) is None ==> r is Err,
    {
        self.reset()?;
        value.bind(self)
    }

    /// Reset the statement, bind `value` and step until the statement
    /// reports that it is done. Use `()` to bind nothing.
    pub fn execute<B: Bind>(&mut self, value: B) -> (r: Result<(), Error>)
        ensures
            r is Ok ==> final(self).current_row() is None,
            r is Ok ==> final(self).last_step() == Some(Ok::<State, Error>(State::Done)),
            r is Ok ==> value.bind_spec(old(self).bindings()) == Some(final(self).bindings()),
            value.bind_spec(old(self).bindings()) is None ==> r is Err,
            final(self).last_step() is None ==> r is Err,
            final(self).last_step() matches Some(Err(e)) ==> r == Err::<(), Error>(e),
            final(self).last_step() == Some(Ok::<State, Error>(State::Row)) ==> (r matches Err(e)
                && e.code_spec() == Code::ABORT),
    {
        let ghost before = self.bindings();
        self.bind(value)?;
        let ghost bound = self.bindings();
        let mut steps: u64 = 0;
        loop
            invariant
                self.bindings() == bound,
                value.bind_spec(before) == Some(bound),
                before == old(self).bindings(),
                self.last_step() is None || self.last_step() == Some(Ok::<State, Error>(State::Row)),
            decreases MAX_STEPS - steps,
        {
            match self.step()? {
                State::Done => return Ok(()),
                State::Row => {},
            }
            if steps == MAX_STEPS {
                return Err(Error::new(Code::ABORT, "statement did not finish"));
            }
            steps = steps + 1;
        }
    }

    /// Read column `index` of the current row as a `T`; the first column has
    /// index 0. The column is first checked against the column types that `T`
    /// accepts, then decoded. Without a current row, or past the last column,
    /// the column reads as NULL.
    pub fn column<'stmt, T: FromColumn<'stmt>>(&'stmt mut self, index: i32) -> (r: Result<T, Error>)
        ensures
            read_as::<'stmt, T>(old(self).column_at(index as int), r),
            *final(self) == *old(self),
    {
        let this: &'stmt Statement<'conn> = self;
        let checked = T::Type::check(this, index)?;
        T::from_column(this, checked)
    }

    /// Borrow column `index` of the current row as a `T`, such as `str` or
    /// `[u8]`; the column is first checked against the column types that `T`
    /// accepts.
    pub fn unsized_column<'stmt, T: FromUnsizedColumn + ?Sized>(&'stmt mut self, index: i32) -> (r:
        Result<&'stmt T, Error>)
        ensures
            borrow_as::<T>(old(self).column_at(index as int), r),
            *final(self) == *old(self),
    {
        let this: &'stmt Statement<'conn> = self;
        let checked = T::Type::check(this, index)?;
        T::from_unsized_column(this, checked)
    }

    /// Read the current row as a `T`.
    pub fn row<'stmt, T: Row<'stmt>>(&'stmt mut self) -> (r: Result<T, Error>)
        ensures
            T::row_result(old(self).current_row(), r),
            *final(self) == *old(self),
    {
        let this: &'stmt Statement<'conn> = self;
        T::from_row(this)
    }

    /// Step the statement and read the row it comes to as a `T`; `None`
    /// once there are no more rows.
    pub fn next<'stmt, T: Row<'stmt>>(&'stmt mut self) -> (r: Result<Option<T>, Error>)
        ensures
            final(self).bindings() == old(self).bindings(),
            final(self).last_step() is Some,
            final(self).last_step() == Some(Ok::<State, Error>(State::Done)) <==> r == Ok::<
                Option<T>,
                Error,
            >(None),
            final(self).last_step() matches Some(Err(e)) ==> r == Err::<Option<T>, Error>(e),
            final(self).last_step() == Some(Ok::<State, Error>(State::Row)) ==> match r {
                Ok(Some(v)) => T::row_result(final(self).current_row(), Ok(v)),
                Ok(None) => false,
                Err(e) => T::row_result(final(self).current_row(), Err(e)),
            },
    {
        match self.step()? {
            State::Row => {
                let this: &'stmt Statement<'conn> = self;
                Ok(Some(T::from_row(this)?))
            },
            State::Done => Ok(None),
        }
    }

    /// Return the type of a column of the current row: NULL when the
    /// statement is not on a row or the row has no such column.
    pub fn column_type(&self, index: i32) -> (t: ValueType)
        ensures
            t == cell_type(self.column_at(index as int)),
    {
        match self.column_value(index) {
            Some(c) => c.value_type(),
            None => ValueType::NULL,
        }
    }

    /// Return the number of columns in the result set returned by the
    /// statement; 0 for a statement that returns no data.
    pub fn column_count(&self) -> (n: i32)
        ensures
            n >= 0,
    {
        clamp_count(engine::column_count(&self.handle))
    }

    /// Return the column indexes, in order: `column_indexes` of the column
    /// count.
    pub fn columns(&self) -> (r: Vec<i32>)
        ensures
            forall|i: int| 0 <= i < r@.len() ==> r@[i] == i,
    {
        column_indexes(self.column_count())
    }

    /// Return the index for a named parameter, if the statement has one of
    /// that name. A name holding a NUL byte names no parameter.
    pub fn bind_parameter_index(&self, name: &str) -> (r: Option<i32>)
        ensures
            r matches Some(i) ==> i > 0,
            crate::path::holds_nul(name.spec_bytes()) ==> r is None,
    {
        if crate::path::has_nul(name) {
            return None;
        }
        match engine::parameter_index(&self.handle, name) {
            Ok(Some(i)) => {
                if 0 < i && i <= 0x7fff_ffff {
                    Some(i as i32)
                } else {
                    None
                }
            },
            _ => None,
        }
    }

    /// Return the name of the parameter at `index`, if it has one.
    pub fn bind_parameter_name(&self, index: i32) -> (r: Option<&str>)
        ensures
            index <= 0 ==> r is None,
    {
        if index <= 0 {
            None
        } else {
            engine::parameter_name(&self.handle, index as usize)
        }
    }
}


/// A typed iterator over the rows of a statement; see `Statement::iter`.
pub struct Iter<'a, 'conn, T> {
    stmt: &'a mut Statement<'conn>,
    marker: core::marker::PhantomData<T>,
}

impl<'a, 'conn, T> Iter<'a, 'conn, T> where for<'stmt> T: Row<'stmt> {
    /// The statement iterated over.
    pub closed spec fn statement(&self) -> Statement<'conn> {
        *self.stmt
    }

    /// Step the statement and read the row it comes to; `None` once there
    /// are no more rows.
    pub fn next(&mut self) -> (r: Option<Result<T, Error>>)
        ensures
            final(self).statement().bindings() == old(self).statement().bindings(),
            final(self).statement().last_step() is Some,
            final(self).statement().last_step() == Some(Ok::<State, Error>(State::Done)) <==> r is None,
            final(self).statement().last_step() matches Some(Err(e)) ==> r == Some(
                Err::<T, Error>(e),
            ),
            final(self).statement().last_step() == Some(Ok::<State, Error>(State::Row)) ==> match r {
                Some(res) => T::row_result(final(self).statement().current_row(), res),
                None => false,
            },
    {
        match self.stmt.step() {
            Ok(State::Row) => Some(T::from_row(&*self.stmt)),
            Ok(State::Done) => None,
            Err(e) => Some(Err(e)),
        }
    }
}

/// An owned typed iterator over the rows of a statement; see
/// `Statement::into_iter`.
pub struct IntoIter<'conn, T> {
    stmt: Statement<'conn>,
    marker: core::marker::PhantomData<T>,
}

impl<'conn, T> IntoIter<'conn, T> where for<'stmt> T: Row<'stmt> {
    /// The statement iterated over.
    pub closed spec fn statement(&self) -> Statement<'conn> {
        self.stmt
    }

    /// Step the statement and read the row it comes to; `None` once there
    /// are no more rows.
    pub fn next(&mut self) -> (r: Option<Result<T, Error>>)
        ensures
            final(self).statement().bindings() == old(self).statement().bindings(),
            final(self).statement().last_step() is Some,
            final(self).statement().last_step() == Some(Ok::<State, Error>(State::Done)) <==> r is None,
            final(self).statement().last_step() matches Some(Err(e)) ==> r == Some(
                Err::<T, Error>(e),
            ),
            final(self).statement().last_step() == Some(Ok::<State, Error>(State::Row)) ==> match r {
                Some(res) => T::row_result(final(self).statement().current_row(), res),
                None => false,
            },
    {
        match self.stmt.step() {
            Ok(State::Row) => Some(T::from_row(&self.stmt)),
            Ok(State::Done) => None,
            Err(e) => Some(Err(e)),
        }
    }
}

impl<'conn> Statement<'conn> {
    /// A typed iterator over the rows of this statement, each read as a `T`
    /// that owns its data.
    pub fn iter<'a, T>(&'a mut self) -> (it: Iter<'a, 'conn, T>) where for<'stmt> T: Row<'stmt>
        ensures
            it.statement() == *old(self),
    {
        Iter { stmt: self, marker: core::marker::PhantomData }
    }

    /// An owned typed iterator over the rows of this statement, each read as
    /// a `T` that owns its data.
    pub fn into_iter<T>(self) -> (it: IntoIter<'conn, T>) where for<'stmt> T: Row<'stmt>
        ensures
            it.statement() == self,
    {
        IntoIter { stmt: self, marker: core::marker::PhantomData }
    }
}

} // verus!
