//! Taking over a freshly parsed system.

use vstd::prelude::*;
use crate::messages::PARSE_SUCCESS;
use crate::result_status::ResultStatus;
use crate::state::State;
use crate::sync::{LockLedger, guarded_mut};
use crate::system::ParsedSystem;

verus! {

/// Response of the `parse` command.
#[derive(Debug)]
pub struct ParseResult {
    pub status: ResultStatus,
    pub message: String,
}

/// Turns a response into an error response carrying `msg`.
pub fn format_error_response(ret: &mut ParseResult, msg: String)
    ensures
        final(ret).status == ResultStatus::Error,
        final(ret).message == msg,
{
    ret.status = ResultStatus::Error;
    ret.message = msg;
}

/// What `store_parsed` owes: `before` and `after` are the system slot
/// before and after it.
pub open spec fn parse_answer<S>(
    parsed: Result<ParsedSystem<S>, String>,
    before: Option<ParsedSystem<S>>,
    after: Option<ParsedSystem<S>>,
    ret: ParseResult,
) -> bool {
    match parsed {
        Ok(manycore) => {
            &&& after == Some(manycore)
            &&& ret.status == ResultStatus::Okay
            &&& ret.message@ == PARSE_SUCCESS@
        },
        Err(reason) => {
            &&& after == before
            &&& ret.status == ResultStatus::Error
            &&& ret.message == reason
        },
    }
}

/// Takes over the outcome of a parse while the system lock is held: a
/// parsed system replaces the stored one as a whole; a failed parse leaves
/// the stored one alone and is reported with the parser's words. The stored
/// diagram is not regenerated here.
pub fn store_parsed<S>(
    manycore: &mut Option<ParsedSystem<S>>,
    parsed: Result<ParsedSystem<S>, String>,
) -> (ret: ParseResult)
    ensures
        parse_answer(parsed, *old(manycore), *final(manycore), ret),
{
    let mut ret = ParseResult { status: ResultStatus::Okay, message: PARSE_SUCCESS.to_owned() };
    match parsed {
        Ok(system) => {
            *manycore = Some(system);
        },
        Err(reason) => {
            format_error_response(&mut ret, reason);
        },
    }
    ret
}

/// Takes over the outcome of parsing a system description. A failed parse
/// is reported with the parser's words and takes no lock. A parsed system
/// waits for the system lock and replaces the stored one; where the lock is
/// poisoned the failure is reported with the lock's own words and the
/// stored system stays.
pub fn parse<S, G, F>(parsed: Result<ParsedSystem<S>, String>, state: &State<S, G, F>) -> (ret:
    ParseResult)
    ensures
        match parsed {
            Err(reason) => ret.status == ResultStatus::Error && ret.message == reason,
            Ok(_) => ret.status == ResultStatus::Error || (ret.status == ResultStatus::Okay
                && ret.message@ == PARSE_SUCCESS@),
        },
{
    let mut ret = ParseResult { status: ResultStatus::Okay, message: PARSE_SUCCESS.to_owned() };
    match parsed {
        Ok(manycore) => {
            let mut ledger = LockLedger::new();
            match state.lock_system(&mut ledger) {
                Ok(mut guard) => {
                    return store_parsed(guarded_mut(&mut guard), Ok(manycore));
                },
                Err(poisoned) => {
                    format_error_response(&mut ret, poisoned);
                },
            }
        },
        Err(reason) => {
            format_error_response(&mut ret, reason);
        },
    }
    ret
}

} // verus!
