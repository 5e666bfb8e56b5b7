//! Lookup of the details of one element of the system.

use vstd::prelude::*;
use std::collections::BTreeMap;
use crate::messages::{GENERIC_ERROR, INFO_SUCCESS};
use crate::result_status::ResultStatus;
use crate::state::State;
use crate::sync::{LockLedger, guarded};
use crate::system::ParsedSystem;

verus! {

/// Response of the `get_info` command.
#[derive(Debug)]
pub struct InfoResult {
    pub status: ResultStatus,
    pub message: String,
    pub info: Option<BTreeMap<String, String>>,
}

impl InfoResult {
    /// The response is the failure reported as `text`.
    pub open spec fn fails_with(self, text: Seq<char>) -> bool {
        &&& self.status == ResultStatus::Error
        &&& self.message@ == text
        &&& self.info is None
    }
}

/// What `info_of` owes.
pub open spec fn info_answer<
    S,
    IF: Fn(&S, String) -> Result<Option<BTreeMap<String, String>>, String>,
>(manycore: Option<ParsedSystem<S>>, group_id: String, lookup: IF, ret: InfoResult) -> bool {
    match manycore {
        None => ret.fails_with(GENERIC_ERROR@),
        Some(stored) => match ret.status {
            ResultStatus::Okay => {
                &&& ret.message@ == INFO_SUCCESS@
                &&& call_ensures(lookup, (&stored.model, group_id), Ok(ret.info))
            },
            ResultStatus::Error => {
                &&& ret.info is None
                &&& call_ensures(lookup, (&stored.model, group_id), Err(ret.message))
            },
        },
    }
}

/// Looks up the details of the element `group_id` in the stored system,
/// while the system lock is held. An element without details gives a
/// success without details; an element the system does not know gives the
/// failure that the lookup reports.
pub fn info_of<S, IF: Fn(&S, String) -> Result<Option<BTreeMap<String, String>>, String>>(
    manycore: &Option<ParsedSystem<S>>,
    group_id: String,
    lookup: IF,
) -> (ret: InfoResult)
    requires
        forall|model: &S, id: String| call_requires(lookup, (model, id)),
    ensures
        info_answer(*manycore, group_id, lookup, ret),
{
    match manycore {
        None => InfoResult {
            status: ResultStatus::Error,
            message: GENERIC_ERROR.to_owned(),
            info: None,
        },
        Some(stored) => match lookup(&stored.model, group_id) {
            Ok(info) => InfoResult {
                status: ResultStatus::Okay,
                message: INFO_SUCCESS.to_owned(),
                info,
            },
            Err(reason) => InfoResult { status: ResultStatus::Error, message: reason, info: None },
        },
    }
}

/// Answers with the details of the element `group_id` of the stored system.
/// Waits for the system lock.
pub fn get_info<S, G, F, IF: Fn(&S, String) -> Result<Option<BTreeMap<String, String>>, String>>(
    group_id: String,
    state: &State<S, G, F>,
    lookup: IF,
) -> (ret: InfoResult)
    requires
        forall|model: &S, id: String| call_requires(lookup, (model, id)),
    ensures
        ({
            ||| ret.fails_with(GENERIC_ERROR@)
            ||| exists|manycore: Option<ParsedSystem<S>>| #[trigger]
                info_answer(manycore, group_id, lookup, ret)
        }),
{
    let mut ledger = LockLedger::new();
    match state.lock_system(&mut ledger) {
        Ok(guard) => info_of(guarded(&guard), group_id, lookup),
        Err(_) => InfoResult {
            status: ResultStatus::Error,
            message: GENERIC_ERROR.to_owned(),
            info: None,
        },
    }
}

} // verus!
