//! Batches of statements: a text holding any number of SQL statements,
//! prepared and run one after the other.

use vstd::prelude::*;

use crate::code::Code;
use crate::engine;
use crate::error::{failure_code, Error};
use crate::state::State;
use crate::statement::{finish, Statement};

verus! {

/// What a batch answered when it was asked for its next statement.
pub enum BatchAnswer {
    /// It prepared the next statement of the text.
    Statement,
    /// It had no statement left.
    End,
    /// Preparing failed, with this code and message.
    Failed(Code, Seq<char>),
}

/// The answer recorded for what `engine::batch_next` gave: `Ok(true)` for a
/// statement, `Ok(false)` for the end of the text, and a failure by its code
/// and message.
pub open spec fn answer_of(r: Result<bool, engine::Failure>) -> BatchAnswer {
    match r {
        Ok(true) => BatchAnswer::Statement,
        Ok(false) => BatchAnswer::End,
        Err(f) => BatchAnswer::Failed(failure_code(f.code), f.message@),
    }
}

/// A text of statements together with the statement it last gave.
///
/// Besides the statement, a batch keeps a record for the proofs: the
/// answers it gave, in order, and for each answer what the statement given
/// before it had last reported when the answer was asked for (`None` for
/// the first answer). It also keeps the length of the text in bytes and how
/// many of them it has gone through.
pub struct Batch<'conn, 'sql> {
    pub(crate) inner: rusqlite::Batch<'conn, 'sql>,
    pub(crate) current: Option<Statement<'conn>>,
    pub(crate) answers: Ghost<Seq<BatchAnswer>>,
    pub(crate) reports: Ghost<Seq<Option<Result<State, Error>>>>,
    pub(crate) text_len: Ghost<nat>,
    pub(crate) consumed: Ghost<nat>,
}

impl<'conn, 'sql> Batch<'conn, 'sql> {
    /// The answers given so far, in order.
    pub closed spec fn answers(&self) -> Seq<BatchAnswer> {
        self.answers@
    }

    /// For each answer, what the statement given before it had last
    /// reported when the answer was asked for.
    pub closed spec fn reports(&self) -> Seq<Option<Result<State, Error>>> {
        self.reports@
    }

    /// The length of the text in bytes.
    pub closed spec fn text_len(&self) -> nat {
        self.text_len@
    }

    /// How many bytes of the text the batch has gone through.
    pub closed spec fn consumed(&self) -> nat {
        self.consumed@
    }

    /// The statement the batch last gave, while it is held.
    pub closed spec fn current(&self) -> Option<Statement<'conn>> {
        self.current
    }

    /// A batch that has not been asked for anything yet.
    pub open spec fn is_fresh(&self) -> bool {
        &&& self.answers().len() == 0
        &&& self.reports().len() == 0
        &&& self.consumed() == 0
        &&& self.current() is None
    }
}

/// The message of the error for a text that is to hold exactly one
/// statement and does not.
pub open spec fn statement_count_message() -> Seq<char> {
    "SQL logic error"@
}

/// Run every statement of a fresh batch in turn, each stepped until it
/// reports that it is done, throwing away the rows. The batch is asked for
/// its next statement only once the one before is done, so execution stops
/// at the first failure: the statements before it keep their effects and
/// none after it is prepared or run.
///
/// The result is `Ok` exactly when the batch reached the end of its text.
/// Otherwise it is the failure to prepare the last statement asked for, or
/// the error that the last statement reported when it was stepped. At most
/// one statement is prepared per byte of the text.
pub fn run_batch(batch: &mut Batch<'_, '_>) -> (r: Result<(), Error>)
    requires
        old(batch).is_fresh(),
    ensures
        ({
            let a = final(batch).answers();
            let p = final(batch).reports();
            &&& a.len() >= 1
            &&& p.len() == a.len()
            &&& a.len() <= final(batch).text_len() + 1
            &&& final(batch).text_len() == old(batch).text_len()
            &&& forall|i: int| 0 <= i < a.len() - 1 ==> #[trigger] a[i] is Statement
            &&& p[0] is None
            &&& forall|i: int| 1 <= i < p.len() ==> #[trigger] p[i] == Some(
                Ok::<State, Error>(State::Done),
            )
            &&& (r is Ok <==> a.last() is End)
            &&& (a.last() matches BatchAnswer::Failed(c, m) ==> (r matches Err(e) && e.code_spec() == c
                && e.message_spec() == m))
            &&& (a.last() is Statement ==> (final(batch).current() matches Some(s) && s.last_step() is Some
                && s.last_step() != Some(Ok::<State, Error>(State::Done)) && (s.last_step() matches Some(
                Err(e)) ==> r == Err::<(), Error>(e)) && (s.last_step() == Some(
                Ok::<State, Error>(State::Row)) ==> (r matches Err(e) && e.code_spec() == Code::ABORT))))
        }),
        old(batch).text_len() == 0 ==> (final(batch).answers() == seq![BatchAnswer::End] && r is Ok),
{
    loop
        invariant
            batch.text_len() == old(batch).text_len(),
            batch.consumed() <= batch.text_len(),
            batch.answers().len() <= batch.consumed(),
            batch.reports().len() == batch.answers().len(),
            forall|i: int| 0 <= i < batch.answers().len() ==> #[trigger] batch.answers()[i] is Statement,
            batch.reports().len() > 0 ==> batch.reports()[0] is None,
            forall|i: int| 1 <= i < batch.reports().len() ==> #[trigger] batch.reports()[i] == Some(
                Ok::<State, Error>(State::Done),
            ),
            batch.answers().len() == 0 ==> batch.current() is None && batch.consumed() == 0,
            batch.answers().len() > 0 ==> (batch.current() matches Some(s) && s.last_step() == Some(
                Ok::<State, Error>(State::Done))),
        decreases batch.text_len() - batch.consumed(),
    {
        match engine::batch_next(batch) {
            Err(f) => return Err(Error::from_failure(f)),
            Ok(false) => return Ok(()),
            Ok(true) => {},
        }
        // The batch holds the statement it just gave, so `None` is not reached.
        let mut stmt = match batch.current.take() {
            Some(s) => s,
            None => return Ok(()),
        };
        let done = finish(&mut stmt);
        batch.current = Some(stmt);
        match done {
            Ok(()) => {},
            Err(e) => return Err(e),
        }
    }
}

/// Check that a fresh batch holds exactly one statement: the first answer
/// must be a statement, and the second the end of the text. A failure to
/// prepare the first statement is handed on; no statement at all, or a
/// second statement (whether it prepares or not), is an `ERROR`.
pub fn check_single(batch: &mut Batch<'_, '_>) -> (r: Result<(), Error>)
    requires
        old(batch).is_fresh(),
    ensures
        final(batch).text_len() == old(batch).text_len(),
        (r is Ok <==> final(batch).answers() == seq![BatchAnswer::Statement, BatchAnswer::End]),
        final(batch).answers().len() >= 1,
        match final(batch).answers()[0] {
            BatchAnswer::Failed(c, m) => final(batch).answers().len() == 1 && (r matches Err(e)
                && e.code_spec() == c && e.message_spec() == m),
            BatchAnswer::End => final(batch).answers().len() == 1 && (r matches Err(e)
                && e.code_spec() == Code::ERROR && e.message_spec() == statement_count_message()),
            BatchAnswer::Statement => final(batch).answers().len() == 2 && (!(final(batch).answers()[1] is End)
                ==> (r matches Err(e) && e.code_spec() == Code::ERROR && e.message_spec()
                == statement_count_message())),
        },
        old(batch).text_len() == 0 ==> final(batch).answers() == seq![BatchAnswer::End],
{
    match engine::batch_next(batch) {
        Err(f) => return Err(Error::from_failure(f)),
        Ok(false) => return Err(Error::new(Code::ERROR, "SQL logic error")),
        Ok(true) => {},
    }
    match engine::batch_next(batch) {
        Ok(false) => {
            assert(batch.answers() =~= seq![BatchAnswer::Statement, BatchAnswer::End]);
            Ok(())
        },
        _ => Err(Error::new(Code::ERROR, "SQL logic error")),
    }
}

} // verus!
