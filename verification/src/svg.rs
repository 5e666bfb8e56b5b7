//! Generation of the diagram from the parsed system, and the responses that
//! carry it to the front end.

use vstd::prelude::*;
use crate::configuration::{Configuration, UpdateResult, updated};
use crate::diagram::{Diagram, Viewport};
use crate::error::{CommandError, ErrorKind};
use crate::messages::{GENERIC_ERROR, LOAD_BEFORE_RENDER, RENDER_BUSY, SVG_SUCCESS};
use crate::result_status::ResultStatus;
use crate::state::State;
use crate::sync::{LockLedger, Resource, ascending_acquisitions_are_admitted, guarded, guarded_mut};
use crate::system::ParsedSystem;

verus! {

/// A serialized diagram and the moment it was generated.
#[derive(Debug)]
pub struct SVGObject {
    pub content: String,
    pub timestamp: String,
}

/// Response of the commands that generate the diagram.
#[derive(Debug)]
pub struct SVGResult {
    pub status: ResultStatus,
    pub message: String,
    pub svg: Option<SVGObject>,
}

impl SVGResult {
    /// The response is the failure reported as `text`.
    pub open spec fn fails_with(self, text: Seq<char>) -> bool {
        &&& self.status == ResultStatus::Error
        &&& self.message@ == text
        &&& self.svg is None
    }

    /// The uniform response for the outcome of an operation that yields a
    /// diagram: its text on success, the failure's wording otherwise.
    pub fn from_outcome(outcome: Result<SVGObject, CommandError>) -> (ret: SVGResult)
        ensures
            match outcome {
                Ok(svg) => {
                    &&& ret.status == ResultStatus::Okay
                    &&& ret.message@ == SVG_SUCCESS@
                    &&& ret.svg == Some(svg)
                },
                Err(error) => ret.fails_with(error.message@) && ret.message == error.message,
            },
    {
        match outcome {
            Ok(svg) => SVGResult {
                status: ResultStatus::Okay,
                message: SVG_SUCCESS.to_owned(),
                svg: Some(svg),
            },
            Err(error) => SVGResult::failure(error.message),
        }
    }

    /// The failure response reported as `text`.
    pub fn failure(text: String) -> (ret: SVGResult)
        ensures
            ret.fails_with(text@),
            ret.message == text,
    {
        SVGResult { status: ResultStatus::Error, message: text, svg: None }
    }
}

/// Current date and time in UTC as text: `chrono::Utc::now`, printed.
///
/// The result depends on the clock alone, so nothing is stated of it. The
/// call panics only where the system clock reads a time before 1970.
#[verifier::external_body]
pub(crate) fn timestamp_now() -> (timestamp: String) {
    chrono::Utc::now().to_string()
}

/// Serializes a freshly derived diagram and, if that succeeds, stores it in
/// place of the one in `slot`. A diagram that cannot be serialized is never
/// stored: the slot then keeps what it held.
pub fn install_diagram<G, SF: Fn(&Diagram<G>) -> Result<String, String>>(
    slot: &mut Option<Diagram<G>>,
    diagram: Diagram<G>,
    serialize: SF,
) -> (content: Result<String, CommandError>)
    requires
        forall|framed: &Diagram<G>| call_requires(serialize, (framed,)),
    ensures
        match content {
            Ok(text) => {
                &&& call_ensures(serialize, (&diagram,), Ok(text))
                &&& *final(slot) == Some(diagram)
            },
            Err(error) => {
                &&& error.kind == ErrorKind::SerializationError
                &&& call_ensures(serialize, (&diagram,), Err(error.message))
                &&& *final(slot) == *old(slot)
            },
        },
{
    match serialize(&diagram) {
        Ok(text) => {
            *slot = Some(diagram);
            Ok(text)
        },
        Err(reason) => Err(CommandError::new(ErrorKind::SerializationError, reason)),
    }
}

/// `diagram` is a fresh diagram of what `derive` made of `manycore`.
pub open spec fn derived_from<S, G, DF: Fn(&S) -> Result<(G, Viewport), String>>(
    manycore: S,
    derive: DF,
    diagram: Diagram<G>,
) -> bool {
    &&& call_ensures(derive, (&manycore,), Ok((diagram.geometry, diagram.viewport)))
    &&& diagram.is_fresh(diagram.geometry, diagram.viewport)
}

/// What generating the diagram of `manycore` may answer. `available` tells
/// whether the diagram slot was to be had; it is asked for only once a
/// diagram has been derived.
pub open spec fn generated<
    S,
    G,
    DF: Fn(&S) -> Result<(G, Viewport), String>,
    SF: Fn(&Diagram<G>) -> Result<String, String>,
>(manycore: S, derive: DF, serialize: SF, available: bool, ret: SVGResult) -> bool {
    ||| ret.status == ResultStatus::Error && ret.svg is None && call_ensures(
        derive,
        (&manycore,),
        Err(ret.message),
    )
    ||| exists|diagram: Diagram<G>|
        {
            &&& #[trigger] derived_from(manycore, derive, diagram)
            &&& if !available {
                ret.fails_with(RENDER_BUSY@)
            } else if ret.status == ResultStatus::Error {
                ret.svg is None && call_ensures(serialize, (&diagram,), Err(ret.message))
            } else {
                &&& ret.message@ == SVG_SUCCESS@
                &&& ret.svg matches Some(svg)
                &&& call_ensures(serialize, (&diagram,), Ok(svg.content))
            }
        }
}

/// What becomes of the diagram slot when the diagram of `manycore` is
/// generated: a success stores the diagram whose text it carries, a failure
/// leaves the slot as it was.
pub open spec fn slot_regenerated<
    S,
    G,
    DF: Fn(&S) -> Result<(G, Viewport), String>,
    SF: Fn(&Diagram<G>) -> Result<String, String>,
>(
    manycore: S,
    derive: DF,
    serialize: SF,
    before: Option<Diagram<G>>,
    after: Option<Diagram<G>>,
    ret: SVGResult,
) -> bool {
    match ret.svg {
        Some(svg) => {
            &&& after matches Some(stored)
            &&& derived_from(manycore, derive, stored)
            &&& call_ensures(serialize, (&stored,), Ok(svg.content))
        },
        None => after == before,
    }
}

/// Derives the diagram of `manycore`, stores it in the diagram slot and
/// answers with its text. `diagram` is the slot where its lock could be
/// taken, and `None` where it could not.
///
/// A system that yields no diagram is reported with the layout engine's
/// words, whether or not the slot is to be had. With a diagram derived, a
/// slot that is not to be had and a diagram that cannot be serialized each
/// give an error response. No failure changes the slot.
pub fn regenerate<
    S,
    G,
    DF: Fn(&S) -> Result<(G, Viewport), String>,
    SF: Fn(&Diagram<G>) -> Result<String, String>,
>(
    manycore: &S,
    diagram: Option<&mut Option<Diagram<G>>>,
    derive: DF,
    serialize: SF,
) -> (ret: SVGResult)
    requires
        forall|system: &S| call_requires(derive, (system,)),
        forall|framed: &Diagram<G>| call_requires(serialize, (framed,)),
    ensures
        generated(*manycore, derive, serialize, diagram is Some, ret),
        diagram matches Some(slot) ==> slot_regenerated(
            *manycore,
            derive,
            serialize,
            *slot,
            *final(slot),
            ret,
        ),
{
    match derive(manycore) {
        Err(reason) => SVGResult::failure(reason),
        Ok((geometry, viewport)) => {
            let fresh = Diagram::new(geometry, viewport);
            assert(derived_from(*manycore, derive, fresh));
            match diagram {
                None => SVGResult::failure(RENDER_BUSY.to_owned()),
                Some(slot) => match install_diagram(slot, fresh, serialize) {
                    Ok(content) => SVGResult {
                        status: ResultStatus::Okay,
                        message: SVG_SUCCESS.to_owned(),
                        svg: Some(SVGObject { content, timestamp: timestamp_now() }),
                    },
                    Err(error) => SVGResult::failure(error.message),
                },
            }
        },
    }
}

/// Derives the diagram of `manycore`, stores it and answers with its text
/// in `ret`. Waits for the diagram lock.
///
/// A system that yields no diagram, a poisoned diagram lock and a diagram
/// that cannot be serialized each give an error response and leave the
/// stored diagram alone.
pub fn generate_svg<
    S,
    G,
    F,
    DF: Fn(&S) -> Result<(G, Viewport), String>,
    SF: Fn(&Diagram<G>) -> Result<String, String>,
>(ret: &mut SVGResult, state: &State<S, G, F>, manycore: &S, derive: DF, serialize: SF)
    requires
        forall|system: &S| call_requires(derive, (system,)),
        forall|framed: &Diagram<G>| call_requires(serialize, (framed,)),
    ensures
        exists|available: bool| #[trigger]
            generated(*manycore, derive, serialize, available, *final(ret)),
{
    let mut ledger = LockLedger::new();
    let mut guard = state.lock_diagram(&mut ledger);
    *ret = match &mut guard {
        Ok(held) => regenerate(manycore, Some(guarded_mut(held)), derive, serialize),
        Err(_) => regenerate(manycore, None, derive, serialize),
    };
}

/// What `svg_of` owes for the system slot `manycore`.
pub open spec fn svg_answer<
    S,
    G,
    DF: Fn(&S) -> Result<(G, Viewport), String>,
    SF: Fn(&Diagram<G>) -> Result<String, String>,
>(
    manycore: Option<ParsedSystem<S>>,
    derive: DF,
    serialize: SF,
    available: bool,
    ret: SVGResult,
) -> bool {
    match manycore {
        None => ret.fails_with(LOAD_BEFORE_RENDER@),
        Some(stored) => generated(stored.model, derive, serialize, available, ret),
    }
}

/// Generates the diagram of the stored system, given the system slot while
/// its lock is held and the diagram slot where its lock could be taken.
/// Without a stored system the answer is the failure that asks for one, and
/// the diagram slot stays as it is; with one, the answer and the slot are
/// what `regenerate` makes of it.
pub fn svg_of<
    S,
    G,
    DF: Fn(&S) -> Result<(G, Viewport), String>,
    SF: Fn(&Diagram<G>) -> Result<String, String>,
>(
    manycore: &Option<ParsedSystem<S>>,
    diagram: Option<&mut Option<Diagram<G>>>,
    derive: DF,
    serialize: SF,
) -> (ret: SVGResult)
    requires
        forall|system: &S| call_requires(derive, (system,)),
        forall|framed: &Diagram<G>| call_requires(serialize, (framed,)),
    ensures
        svg_answer(*manycore, derive, serialize, diagram is Some, ret),
        diagram matches Some(slot) ==> match *manycore {
            None => *final(slot) == *slot,
            Some(stored) => slot_regenerated(
                stored.model,
                derive,
                serialize,
                *slot,
                *final(slot),
                ret,
            ),
        },
{
    match manycore {
        Some(stored) => regenerate(&stored.model, diagram, derive, serialize),
        None => SVGResult::failure(LOAD_BEFORE_RENDER.to_owned()),
    }
}

/// Generates the diagram of the stored system and answers with its text.
/// Waits for the system lock, then for the diagram lock.
///
/// The answer is the general failure where the system lock is poisoned, and
/// otherwise what `svg_of` makes of the system that was stored.
pub fn get_svg<
    S,
    G,
    F,
    DF: Fn(&S) -> Result<(G, Viewport), String>,
    SF: Fn(&Diagram<G>) -> Result<String, String>,
>(state: &State<S, G, F>, derive: DF, serialize: SF) -> (ret: SVGResult)
    requires
        forall|system: &S| call_requires(derive, (system,)),
        forall|framed: &Diagram<G>| call_requires(serialize, (framed,)),
    ensures
        ({
            ||| ret.fails_with(GENERIC_ERROR@)
            ||| exists|manycore: Option<ParsedSystem<S>>, available: bool| #[trigger]
                svg_answer(manycore, derive, serialize, available, ret)
        }),
{
    let mut ledger = LockLedger::new();
    let system_guard = match state.lock_system(&mut ledger) {
        Ok(guard) => guard,
        Err(_) => {
            return SVGResult::failure(GENERIC_ERROR.to_owned());
        },
    };
    proof {
        ascending_acquisitions_are_admitted(
            LockLedger::new_spec(),
            Resource::System,
            Resource::Diagram,
        );
    }
    let mut diagram_guard = state.lock_diagram(&mut ledger);
    match &mut diagram_guard {
        Ok(held) => svg_of(guarded(&system_guard), Some(guarded_mut(held)), derive, serialize),
        Err(_) => svg_of(guarded(&system_guard), None, derive, serialize),
    }
}

/// Response of the `update_svg` command.
#[derive(Debug)]
pub struct SVGUpdateResult<U> {
    pub status: ResultStatus,
    pub message: String,
    pub update: Option<UpdateResult<U>>,
}

impl<U> SVGUpdateResult<U> {
    /// The response is the failure reported as `text`.
    pub open spec fn fails_with(self, text: Seq<char>) -> bool {
        &&& self.status == ResultStatus::Error
        &&& self.message@ == text
        &&& self.update is None
    }
}

/// What `apply_update` owes: `before` and `after` are the diagram slot
/// before and after it.
pub open spec fn update_answer<S, G, U, RF: Fn(&S, &G) -> Result<(G, U), String>>(
    manycore: Option<ParsedSystem<S>>,
    before: Option<Diagram<G>>,
    configuration: Configuration,
    rerender: RF,
    after: Option<Diagram<G>>,
    ret: SVGUpdateResult<U>,
) -> bool {
    match (manycore, before, after) {
        (Some(system), Some(before), Some(after)) => match ret.update {
            Some(result) => {
                &&& ret.status == ResultStatus::Okay
                &&& ret.message@ == SVG_SUCCESS@
                &&& updated(before, system, configuration, rerender, after, Ok(result))
            },
            None => {
                &&& ret.status == ResultStatus::Error
                &&& updated(
                    before,
                    system,
                    configuration,
                    rerender,
                    after,
                    Err::<UpdateResult<U>, CommandError>(
                        CommandError { kind: ErrorKind::ValidationError, message: ret.message },
                    ),
                )
            },
        },
        (Some(_), Some(_), None) => false,
        _ => after == before && ret.fails_with(GENERIC_ERROR@),
    }
}

/// Applies `configuration` to the stored diagram while the system lock and
/// the diagram lock are held. Without a stored system or a stored diagram
/// nothing changes and the answer is the general failure.
pub fn apply_update<S, G, U, RF: Fn(&S, &G) -> Result<(G, U), String>>(
    manycore: &Option<ParsedSystem<S>>,
    diagram: &mut Option<Diagram<G>>,
    configuration: &Configuration,
    rerender: RF,
) -> (ret: SVGUpdateResult<U>)
    requires
        forall|model: &S, geometry: &G| call_requires(rerender, (model, geometry)),
    ensures
        update_answer(*manycore, *old(diagram), *configuration, rerender, *final(diagram), ret),
{
    match (manycore, diagram) {
        (Some(system), Some(stored)) => {
            match stored.update_configurable_information(system, configuration, rerender) {
                Ok(update) => SVGUpdateResult {
                    status: ResultStatus::Okay,
                    message: SVG_SUCCESS.to_owned(),
                    update: Some(update),
                },
                Err(error) => SVGUpdateResult {
                    status: ResultStatus::Error,
                    message: error.message,
                    update: None,
                },
            }
        },
        _ => SVGUpdateResult {
            status: ResultStatus::Error,
            message: GENERIC_ERROR.to_owned(),
            update: None,
        },
    }
}

/// Applies `configuration` to the stored diagram. Waits for the system
/// lock, then for the diagram lock, and holds both for the whole update, so
/// that no reader sees the diagram between its old and its new state.
pub fn update_svg<S, G, F, U, RF: Fn(&S, &G) -> Result<(G, U), String>>(
    configuration: Configuration,
    state: &State<S, G, F>,
    rerender: RF,
) -> (ret: SVGUpdateResult<U>)
    requires
        forall|model: &S, geometry: &G| call_requires(rerender, (model, geometry)),
    ensures
        ({
            ||| ret.fails_with(GENERIC_ERROR@)
            ||| exists|
                manycore: Option<ParsedSystem<S>>,
                before: Option<Diagram<G>>,
                after: Option<Diagram<G>>,
            | #[trigger]
                update_answer(manycore, before, configuration, rerender, after, ret)
        }),
{
    let mut ledger = LockLedger::new();
    let system_guard = match state.lock_system(&mut ledger) {
        Ok(guard) => guard,
        Err(_) => {
            return SVGUpdateResult {
                status: ResultStatus::Error,
                message: GENERIC_ERROR.to_owned(),
                update: None,
            };
        },
    };
    proof {
        ascending_acquisitions_are_admitted(
            LockLedger::new_spec(),
            Resource::System,
            Resource::Diagram,
        );
    }
    let mut diagram_guard = match state.lock_diagram(&mut ledger) {
        Ok(guard) => guard,
        Err(_) => {
            return SVGUpdateResult {
                status: ResultStatus::Error,
                message: GENERIC_ERROR.to_owned(),
                update: None,
            };
        },
    };
    apply_update(guarded(&system_guard), guarded_mut(&mut diagram_guard), &configuration, rerender)
}

} // verus!
