//! Configurations, and the engine that applies one to an existing diagram.

use vstd::prelude::*;
use crate::diagram::{Diagram, names};
use crate::error::{CommandError, ErrorKind};
use crate::messages::{
    ATTRIBUTES_SUCCESS,
    BASE_CONFIGURATION_SUCCESS,
    GENERIC_ERROR,
    LOAD_BEFORE_RENDER,
    UNKNOWN_ATTRIBUTE,
    with_detail,
};
use crate::result_status::ResultStatus;
use crate::state::State;
use crate::sync::{LockLedger, guarded};
use crate::system::ParsedSystem;

verus! {

/// One visual attribute and whether its layer is to be shown.
#[derive(Debug)]
pub struct Toggle {
    pub attribute: String,
    pub enabled: bool,
}

/// The toggles a caller supplies with an update. A configuration carries no
/// earlier state: what it enables is all that is shown once it is applied.
#[derive(Debug)]
pub struct Configuration {
    pub toggles: Vec<Toggle>,
}

impl Configuration {
    /// The attributes this configuration enables.
    pub open spec fn enabled_set(self) -> Set<Seq<char>> {
        Set::new(
            |attribute: Seq<char>|
                exists|i: int|
                    0 <= i < self.toggles@.len() && (#[trigger] self.toggles@[i]).enabled
                        && self.toggles@[i].attribute@ == attribute,
        )
    }

    /// Every toggle names an attribute among `exposed`.
    pub open spec fn accepted_by(self, exposed: Set<Seq<char>>) -> bool {
        forall|i: int|
            0 <= i < self.toggles@.len() ==> exposed.contains(
                (#[trigger] self.toggles@[i]).attribute@,
            )
    }

    /// `index` is the first toggle that names an attribute not among `exposed`.
    pub open spec fn first_unknown(self, exposed: Set<Seq<char>>, index: int) -> bool {
        &&& 0 <= index < self.toggles@.len()
        &&& !exposed.contains(self.toggles@[index].attribute@)
        &&& forall|i: int|
            0 <= i < index ==> exposed.contains((#[trigger] self.toggles@[i]).attribute@)
    }
}

/// Which layers an update added and removed, with whatever the layout
/// engine produced for patching the presentation.
#[derive(Debug)]
pub struct UpdateResult<U> {
    pub added: Vec<String>,
    pub removed: Vec<String>,
    pub patch: U,
}

/// Whether `name` is among `list`.
pub fn contains_name(list: &Vec<String>, name: &String) -> (found: bool)
    ensures
        found == names(list@).contains(name@),
{
    let mut i: usize = 0;
    while i < list.len()
        invariant
            i <= list.len(),
            forall|j: int| 0 <= j < i ==> names(list@)[j] != name@,
        decreases list.len() - i,
    {
        if list[i] == *name {
            assert(names(list@)[i as int] == name@);
            return true;
        }
        i += 1;
    }
    false
}

/// The names of `list` that are not among `without`, in the order of `list`.
pub fn difference(list: &Vec<String>, without: &Vec<String>) -> (rest: Vec<String>)
    ensures
        names(rest@).to_set() == names(list@).to_set().difference(names(without@).to_set()),
        names(list@).no_duplicates() ==> names(rest@).no_duplicates(),
{
    let mut rest: Vec<String> = Vec::new();
    let ghost mut origin: Seq<int> = Seq::empty();
    let mut i: usize = 0;
    while i < list.len()
        invariant
            i <= list.len(),
            origin.len() == rest.len(),
            forall|k: int|
                0 <= k < rest.len() ==> 0 <= #[trigger] origin[k] < i && names(list@)[origin[k]]
                    == names(rest@)[k],
            forall|k: int|
                0 <= k < rest.len() ==> !names(without@).contains(#[trigger] names(rest@)[k]),
            forall|j: int|
                0 <= j < i && !names(without@).contains(#[trigger] names(list@)[j]) ==> names(
                    rest@,
                ).contains(names(list@)[j]),
            names(list@).no_duplicates() ==> names(rest@).no_duplicates(),
        decreases list.len() - i,
    {
        if !contains_name(without, &list[i]) {
            let ghost before = names(rest@);
            let name = list[i].clone();
            rest.push(name);
            proof {
                origin = origin.push(i as int);
                let after = names(rest@);
                assert(after =~= before.push(names(list@)[i as int]));
                assert forall|j: int|
                    0 <= j < i + 1 && !names(without@).contains(
                        #[trigger] names(list@)[j],
                    ) implies after.contains(names(list@)[j]) by {
                    if j < i {
                        let k = choose|k: int|
                            0 <= k < before.len() && before[k] == names(list@)[j];
                        assert(after[k] == names(list@)[j]);
                    } else {
                        assert(after[before.len() as int] == names(list@)[j]);
                    }
                }
                if names(list@).no_duplicates() {
                    assert forall|a: int, b: int|
                        0 <= a < after.len() && 0 <= b < after.len() && a != b implies after[a]
                        != after[b] by {
                        if a == before.len() || b == before.len() {
                            let other = if a == before.len() {
                                b
                            } else {
                                a
                            };
                            let j = origin[other];
                            assert(names(list@)[j] == before[other]);
                            assert(names(list@)[j] != names(list@)[i as int]);
                        }
                    }
                }
            }
        }
        i += 1;
    }
    proof {
        let left = names(rest@).to_set();
        let right = names(list@).to_set().difference(names(without@).to_set());
        assert forall|name: Seq<char>| left.contains(name) <==> right.contains(name) by {
            if left.contains(name) {
                let k = choose|k: int| 0 <= k < rest.len() && names(rest@)[k] == name;
                assert(names(list@)[origin[k]] == name);
                assert(names(list@).contains(name));
            }
            if right.contains(name) {
                let j = choose|j: int| 0 <= j < list.len() && names(list@)[j] == name;
                assert(names(rest@).contains(names(list@)[j]));
            }
        }
        assert(left =~= right);
    }
    rest
}

impl Configuration {
    /// The configuration that enables exactly the attributes named in
    /// `attributes` and mentions no other.
    pub fn enabling(attributes: Vec<String>) -> (configuration: Configuration)
        ensures
            configuration.enabled_set() == names(attributes@).to_set(),
            configuration.toggles@.len() == attributes@.len(),
            forall|i: int|
                0 <= i < attributes@.len() ==> (#[trigger] configuration.toggles@[i]).enabled
                    && configuration.toggles@[i].attribute@ == attributes@[i]@,
    {
        let mut toggles: Vec<Toggle> = Vec::new();
        let mut i: usize = 0;
        while i < attributes.len()
            invariant
                i <= attributes.len(),
                toggles.len() == i,
                forall|j: int|
                    0 <= j < i ==> (#[trigger] toggles@[j]).enabled && toggles@[j].attribute@
                        == attributes@[j]@,
            decreases attributes.len() - i,
        {
            toggles.push(Toggle { attribute: attributes[i].clone(), enabled: true });
            i += 1;
        }
        let configuration = Configuration { toggles };
        proof {
            let left = configuration.enabled_set();
            let right = names(attributes@).to_set();
            assert forall|name: Seq<char>| left.contains(name) <==> right.contains(name) by {
                if left.contains(name) {
                    let j = choose|j: int|
                        0 <= j < configuration.toggles@.len() && (
                        #[trigger] configuration.toggles@[j]).enabled
                            && configuration.toggles@[j].attribute@ == name;
                    assert(names(attributes@)[j] == name);
                }
                if right.contains(name) {
                    let j = choose|j: int|
                        0 <= j < attributes@.len() && names(attributes@)[j] == name;
                    assert(configuration.toggles@[j].enabled);
                }
            }
            assert(left =~= right);
        }
        configuration
    }

    /// The index of the first toggle that names an attribute not among
    /// `exposed`; `None` when every toggle names one that is.
    pub fn find_unknown(&self, exposed: &Vec<String>) -> (unknown: Option<usize>)
        ensures
            unknown is None <==> self.accepted_by(names(exposed@).to_set()),
            unknown matches Some(index) ==> self.first_unknown(
                names(exposed@).to_set(),
                index as int,
            ),
    {
        let mut i: usize = 0;
        while i < self.toggles.len()
            invariant
                i <= self.toggles.len(),
                forall|j: int|
                    0 <= j < i ==> names(exposed@).to_set().contains(
                        (#[trigger] self.toggles@[j]).attribute@,
                    ),
            decreases self.toggles.len() - i,
        {
            if !contains_name(exposed, &self.toggles[i].attribute) {
                assert(!names(exposed@).to_set().contains(self.toggles@[i as int].attribute@));
                return Some(i);
            }
            i += 1;
        }
        None
    }

    /// The attributes this configuration enables, each once, in the order in
    /// which they are first enabled.
    pub fn enabled_names(&self) -> (enabled: Vec<String>)
        ensures
            names(enabled@).to_set() == self.enabled_set(),
            names(enabled@).no_duplicates(),
    {
        let mut enabled: Vec<String> = Vec::new();
        let ghost mut origin: Seq<int> = Seq::empty();
        let mut i: usize = 0;
        while i < self.toggles.len()
            invariant
                i <= self.toggles.len(),
                names(enabled@).no_duplicates(),
                origin.len() == enabled.len(),
                forall|k: int|
                    0 <= k < enabled.len() ==> 0 <= #[trigger] origin[k] < i
                        && self.toggles@[origin[k]].enabled && self.toggles@[origin[k]].attribute@
                        == names(enabled@)[k],
                forall|j: int|
                    0 <= j < i && (#[trigger] self.toggles@[j]).enabled ==> names(
                        enabled@,
                    ).contains(self.toggles@[j].attribute@),
            decreases self.toggles.len() - i,
        {
            if self.toggles[i].enabled && !contains_name(&enabled, &self.toggles[i].attribute) {
                let ghost before = names(enabled@);
                let name = self.toggles[i].attribute.clone();
                enabled.push(name);
                proof {
                    origin = origin.push(i as int);
                    let after = names(enabled@);
                    assert(after =~= before.push(self.toggles@[i as int].attribute@));
                    assert forall|j: int|
                        0 <= j < i + 1 && (#[trigger] self.toggles@[j]).enabled
                        implies after.contains(self.toggles@[j].attribute@) by {
                        if j < i {
                            let k = choose|k: int|
                                0 <= k < before.len() && before[k] == self.toggles@[j].attribute@;
                            assert(after[k] == self.toggles@[j].attribute@);
                        } else {
                            assert(after[before.len() as int] == self.toggles@[j].attribute@);
                        }
                    }
                }
            }
            i += 1;
        }
        proof {
            let left = names(enabled@).to_set();
            let right = self.enabled_set();
            assert forall|name: Seq<char>| left.contains(name) <==> right.contains(name) by {
                if left.contains(name) {
                    let k = choose|k: int| 0 <= k < enabled.len() && names(enabled@)[k] == name;
                    let j = origin[k];
                    assert(self.toggles@[j].enabled && self.toggles@[j].attribute@ == name);
                }
                if right.contains(name) {
                    let j = choose|j: int|
                        0 <= j < self.toggles@.len() && (#[trigger] self.toggles@[j]).enabled
                            && self.toggles@[j].attribute@ == name;
                    assert(names(enabled@).contains(self.toggles@[j].attribute@));
                }
            }
            assert(left =~= right);
        }
        enabled
    }
}

/// What an update owes: `before` and `after` are the diagram before and
/// after it.
pub open spec fn updated<S, G, U, RF: Fn(&S, &G) -> Result<(G, U), String>>(
    before: Diagram<G>,
    manycore: ParsedSystem<S>,
    configuration: Configuration,
    rerender: RF,
    after: Diagram<G>,
    update: Result<UpdateResult<U>, CommandError>,
) -> bool {
    if !configuration.accepted_by(manycore.exposed()) {
        &&& after == before
        &&& update matches Err(error)
        &&& error.kind == ErrorKind::ValidationError
        &&& exists|index: int|
            {
                &&& #[trigger] configuration.first_unknown(manycore.exposed(), index)
                &&& error.message@ == UNKNOWN_ATTRIBUTE@
                    + configuration.toggles@[index].attribute@
            }
    } else {
        match update {
            Ok(result) => {
                &&& call_ensures(
                    rerender,
                    (&manycore.model, &before.geometry),
                    Ok((after.geometry, result.patch)),
                )
                &&& after.viewport == before.viewport
                &&& after.clip_path == before.clip_path
                &&& after.visible_set() == configuration.enabled_set()
                &&& names(result.added@).to_set() == configuration.enabled_set().difference(
                    before.visible_set(),
                )
                &&& names(result.removed@).to_set() == before.visible_set().difference(
                    configuration.enabled_set(),
                )
            },
            Err(error) => {
                &&& after == before
                &&& error.kind == ErrorKind::ValidationError
                &&& call_ensures(
                    rerender,
                    (&manycore.model, &before.geometry),
                    Err(error.message),
                )
            },
        }
    }
}

impl<G> Diagram<G> {
    /// Applies `configuration` to the diagram in place.
    ///
    /// A configuration that names an attribute the system does not expose is
    /// turned down before anything is rendered, and so is one that the
    /// layout engine turns down; the diagram then stays exactly as it was.
    /// Otherwise the layout engine's new geometry is taken over, the
    /// attributes shown are exactly those the configuration enables, and
    /// the answer lists the layers that appeared and those that went. The
    /// viewport and the clip are never touched.
    pub fn update_configurable_information<S, U, RF: Fn(&S, &G) -> Result<(G, U), String>>(
        &mut self,
        manycore: &ParsedSystem<S>,
        configuration: &Configuration,
        rerender: RF,
    ) -> (update: Result<UpdateResult<U>, CommandError>)
        requires
            forall|model: &S, geometry: &G| call_requires(rerender, (model, geometry)),
        ensures
            updated(*old(self), *manycore, *configuration, rerender, *final(self), update),
    {
        match configuration.find_unknown(&manycore.configurable) {
            Some(index) => {
                assert(configuration.first_unknown(manycore.exposed(), index as int));
                Err(
                    CommandError::new(
                        ErrorKind::ValidationError,
                        with_detail(
                            UNKNOWN_ATTRIBUTE,
                            configuration.toggles[index].attribute.as_str(),
                        ),
                    ),
                )
            },
            None => match rerender(&manycore.model, &self.geometry) {
                Err(reason) => Err(CommandError::new(ErrorKind::ValidationError, reason)),
                Ok((geometry, patch)) => {
                    let enabled = configuration.enabled_names();
                    let added = difference(&enabled, &self.visible);
                    let removed = difference(&self.visible, &enabled);
                    self.geometry = geometry;
                    self.visible = enabled;
                    Ok(UpdateResult { added, removed, patch })
                },
            },
        }
    }
}

/// Response of the `get_attributes` command.
#[derive(Debug)]
pub struct AttributesResult<A> {
    pub status: ResultStatus,
    pub message: String,
    pub attributes: Option<A>,
}

/// What `attributes_of` owes.
pub open spec fn attributes_answer<S, A, AF: Fn(&S) -> A>(
    manycore: Option<ParsedSystem<S>>,
    describe: AF,
    ret: AttributesResult<A>,
) -> bool {
    match manycore {
        Some(stored) => {
            &&& ret.status == ResultStatus::Okay
            &&& ret.message@ == ATTRIBUTES_SUCCESS@
            &&& ret.attributes matches Some(attributes)
            &&& call_ensures(describe, (&stored.model,), attributes)
        },
        None => {
            &&& ret.status == ResultStatus::Error
            &&& ret.message@ == LOAD_BEFORE_RENDER@
            &&& ret.attributes is None
        },
    }
}

/// Describes the configurable attributes of the stored system, while the
/// system lock is held.
pub fn attributes_of<S, A, AF: Fn(&S) -> A>(
    manycore: &Option<ParsedSystem<S>>,
    describe: AF,
) -> (ret: AttributesResult<A>)
    requires
        forall|model: &S| call_requires(describe, (model,)),
    ensures
        attributes_answer(*manycore, describe, ret),
{
    match manycore {
        Some(stored) => AttributesResult {
            status: ResultStatus::Okay,
            message: ATTRIBUTES_SUCCESS.to_owned(),
            attributes: Some(describe(&stored.model)),
        },
        None => AttributesResult {
            status: ResultStatus::Error,
            message: LOAD_BEFORE_RENDER.to_owned(),
            attributes: None,
        },
    }
}

/// Answers with the configurable attributes of the stored system. Waits
/// for the system lock.
pub fn get_attributes<S, G, F, A, AF: Fn(&S) -> A>(
    state: &State<S, G, F>,
    describe: AF,
) -> (ret: AttributesResult<A>)
    requires
        forall|model: &S| call_requires(describe, (model,)),
    ensures
        ({
            ||| ret.status == ResultStatus::Error && ret.message@ == GENERIC_ERROR@
                && ret.attributes is None
            ||| exists|manycore: Option<ParsedSystem<S>>| #[trigger]
                attributes_answer(manycore, describe, ret)
        }),
{
    let mut ledger = LockLedger::new();
    match state.lock_system(&mut ledger) {
        Ok(guard) => attributes_of(guarded(&guard), describe),
        Err(_) => AttributesResult {
            status: ResultStatus::Error,
            message: GENERIC_ERROR.to_owned(),
            attributes: None,
        },
    }
}

/// Response of the `get_base_configuration` command.
#[derive(Debug)]
pub struct BaseConfigurationResult<B> {
    pub status: ResultStatus,
    pub message: &'static str,
    pub base_configuration: B,
}

/// Answers with the base attributes that can be configured on every system.
pub fn get_base_configuration<B>(base_configuration: B) -> (ret: BaseConfigurationResult<B>)
    ensures
        ret.status == ResultStatus::Okay,
        ret.message@ == BASE_CONFIGURATION_SUCCESS@,
        ret.base_configuration == base_configuration,
{
    BaseConfigurationResult {
        status: ResultStatus::Okay,
        message: BASE_CONFIGURATION_SUCCESS,
        base_configuration,
    }
}

/// A chain of updates on one system: `diagrams[i]` is the diagram before
/// update `i` and `diagrams[i + 1]` the diagram after it, `configurations[i]`
/// is what update `i` was given and `results[i]` what it answered.
pub open spec fn update_chain<S, G, U, RF: Fn(&S, &G) -> Result<(G, U), String>>(
    manycore: ParsedSystem<S>,
    rerender: RF,
    diagrams: Seq<Diagram<G>>,
    configurations: Seq<Configuration>,
    results: Seq<Result<UpdateResult<U>, CommandError>>,
) -> bool {
    &&& diagrams.len() == configurations.len() + 1
    &&& results.len() == configurations.len()
    &&& forall|i: int|
        0 <= i < configurations.len() ==> updated(
            diagrams[i],
            manycore,
            configurations[i],
            rerender,
            diagrams[i + 1],
            #[trigger] results[i],
        )
}

/// Updates that are turned down leave no trace: after update `last` was the
/// last one to succeed before position `upto`, the diagram at `upto` is the
/// one that update `last` left.
proof fn refused_updates_change_nothing<S, G, U, RF: Fn(&S, &G) -> Result<(G, U), String>>(
    manycore: ParsedSystem<S>,
    rerender: RF,
    diagrams: Seq<Diagram<G>>,
    configurations: Seq<Configuration>,
    results: Seq<Result<UpdateResult<U>, CommandError>>,
    last: int,
    upto: int,
)
    requires
        update_chain(manycore, rerender, diagrams, configurations, results),
        0 <= last < upto <= configurations.len(),
        forall|i: int| last < i < upto ==> (#[trigger] results[i]) is Err,
    ensures
        diagrams[upto] == diagrams[last + 1],
    decreases upto - last,
{
    if upto > last + 1 {
        refused_updates_change_nothing(
            manycore,
            rerender,
            diagrams,
            configurations,
            results,
            last,
            upto - 1,
        );
        assert(results[upto - 1] is Err);
    }
}

/// After any sequence of updates on one system, the attributes shown are
/// exactly those enabled by the configuration of the last update that
/// succeeded, whatever earlier configurations enabled; and when no update
/// succeeded, the diagram is the one the sequence began with.
pub proof fn last_configuration_decides<S, G, U, RF: Fn(&S, &G) -> Result<(G, U), String>>(
    manycore: ParsedSystem<S>,
    rerender: RF,
    diagrams: Seq<Diagram<G>>,
    configurations: Seq<Configuration>,
    results: Seq<Result<UpdateResult<U>, CommandError>>,
)
    requires
        update_chain(manycore, rerender, diagrams, configurations, results),
    ensures
        forall|last: int|
            0 <= last < configurations.len() && (#[trigger] results[last]) is Ok && (forall|i: int|
                last < i < configurations.len() ==> (#[trigger] results[i]) is Err)
                ==> diagrams.last().visible_set() == configurations[last].enabled_set(),
        (forall|i: int| 0 <= i < configurations.len() ==> (#[trigger] results[i]) is Err)
            ==> diagrams.last() == diagrams[0],
{
    let n = configurations.len() as int;
    assert forall|last: int|
        0 <= last < n && (#[trigger] results[last]) is Ok && (forall|i: int|
            last < i < n ==> (#[trigger] results[i]) is Err) implies diagrams.last().visible_set()
        == configurations[last].enabled_set() by {
        refused_updates_change_nothing(
            manycore,
            rerender,
            diagrams,
            configurations,
            results,
            last,
            n,
        );
        assert(updated(
            diagrams[last],
            manycore,
            configurations[last],
            rerender,
            diagrams[last + 1],
            results[last],
        ));
    }
    if n > 0 && (forall|i: int| 0 <= i < n ==> (#[trigger] results[i]) is Err) {
        all_refused(manycore, rerender, diagrams, configurations, results, n);
    }
}

/// While every update up to `upto` is turned down, the diagram stays the
/// one the sequence began with.
proof fn all_refused<S, G, U, RF: Fn(&S, &G) -> Result<(G, U), String>>(
    manycore: ParsedSystem<S>,
    rerender: RF,
    diagrams: Seq<Diagram<G>>,
    configurations: Seq<Configuration>,
    results: Seq<Result<UpdateResult<U>, CommandError>>,
    upto: int,
)
    requires
        update_chain(manycore, rerender, diagrams, configurations, results),
        0 <= upto <= configurations.len(),
        forall|i: int| 0 <= i < upto ==> (#[trigger] results[i]) is Err,
    ensures
        diagrams[upto] == diagrams[0],
    decreases upto,
{
    if upto > 0 {
        all_refused(manycore, rerender, diagrams, configurations, results, upto - 1);
        assert(results[upto - 1] is Err);
    }
}

} // verus!
