//! Typed records adapted from the manager's untyped wire shapes: the
//! unit-list row, the job-list row, and the string-keyed property bag.

use vstd::prelude::*;
use vstd::string::StringExecFns;

use crate::errors::Error;
use crate::states::spec_parse_active_state;
use crate::states::spec_parse_load_state;
use crate::states::spec_parse_sub_state;
use crate::states::UnitActiveStateType;
use crate::states::UnitLoadStateType;
use crate::states::UnitSubStateType;
use crate::strutil::str_eq;

verus! {

/// One row of the manager's unit list, as the wire carries it: name,
/// description, the three state strings, the followed unit (empty when
/// none), the unit's object path, and the queued job's id, type and object
/// path.
pub type UnitTuple = (String, String, String, String, String, String, String, u32, String, String);

/// One row of the manager's job list, as the wire carries it: job id, unit
/// name, job type, job state, the job's object path and the unit's object
/// path.
pub type JobTuple = (u32, String, String, String, String, String);

/// One unit of the manager, with its three state axes typed and its job
/// metadata embedded.
#[derive(Clone, Debug)]
pub struct Unit {
    pub name: String,
    pub description: String,
    pub load_state: UnitLoadStateType,
    pub active_state: UnitActiveStateType,
    pub sub_state: UnitSubStateType,
    /// The unit this one follows; absent exactly when the wire field was
    /// the empty string.
    pub follow_unit: Option<String>,
    pub object_path: String,
    pub job_id: u32,
    pub job_ty: String,
    pub job_object_path: String,
}

/// The record a unit-list row adapts to.
pub open spec fn spec_unit_from_tuple(t: UnitTuple) -> Unit {
    Unit {
        name: t.0,
        description: t.1,
        load_state: spec_parse_load_state(t.2),
        active_state: spec_parse_active_state(t.3),
        sub_state: spec_parse_sub_state(t.4),
        follow_unit: if t.5@.len() == 0 {
            None
        } else {
            Some(t.5)
        },
        object_path: t.6,
        job_id: t.7,
        job_ty: t.8,
        job_object_path: t.9,
    }
}

impl From<UnitTuple> for Unit {
    /// Adapt one unit-list row.
    fn from(t: UnitTuple) -> (u: Unit) {
        let (name, description, load, active, sub, follow, object_path, job_id, job_ty, job_path) =
            t;
        let follow_unit = if follow.as_str().is_empty() {
            None
        } else {
            Some(follow)
        };
        Unit {
            name,
            description,
            load_state: UnitLoadStateType::from_string(load),
            active_state: UnitActiveStateType::from_string(active),
            sub_state: UnitSubStateType::from_string(sub),
            follow_unit,
            object_path,
            job_id,
            job_ty,
            job_object_path: job_path,
        }
    }
}

impl vstd::std_specs::convert::FromSpecImpl<UnitTuple> for Unit {
    open spec fn obeys_from_spec() -> bool {
        true
    }

    open spec fn from_spec(t: UnitTuple) -> Self {
        spec_unit_from_tuple(t)
    }
}

/// The adaptation of a whole unit list, row by row, order kept.
pub open spec fn spec_units_from_tuples(ts: Seq<UnitTuple>) -> Seq<Unit> {
    ts.map_values(|t: UnitTuple| spec_unit_from_tuple(t))
}

/// Adapt every row of a unit list, keeping the order; an empty list gives
/// an empty list.
pub fn units_from_tuples(tuples: Vec<UnitTuple>) -> (units: Vec<Unit>)
    ensures
        units@ == spec_units_from_tuples(tuples@),
        units@.len() == tuples@.len(),
{
    let ghost orig = tuples@;
    let mut rest = tuples;
    let mut units: Vec<Unit> = Vec::new();
    while rest.len() > 0
        invariant
            units@.len() + rest@.len() == orig.len(),
            rest@ =~= orig.skip(units@.len() as int),
            units@ =~= spec_units_from_tuples(orig.take(units@.len() as int)),
        decreases rest@.len(),
    {
        let t = rest.remove(0);
        units.push(Unit::from(t));
        proof {
            let n = units@.len() as int;
            assert(orig.take(n).drop_last() =~= orig.take(n - 1));
            assert(units@ =~= spec_units_from_tuples(orig.take(n)));
        }
    }
    proof {
        assert(orig.take(orig.len() as int) =~= orig);
    }
    units
}

/// A queued state-transition operation against a unit.
#[derive(Clone, Debug)]
pub struct Job {
    pub id: u32,
    pub unit_name: String,
    pub ty: String,
    pub state: String,
    pub object_path: String,
    pub unit_object_path: String,
}

/// The record a job-list row adapts to.
pub open spec fn spec_job_from_tuple(t: JobTuple) -> Job {
    Job {
        id: t.0,
        unit_name: t.1,
        ty: t.2,
        state: t.3,
        object_path: t.4,
        unit_object_path: t.5,
    }
}

impl From<JobTuple> for Job {
    /// Adapt one job-list row.
    fn from(t: JobTuple) -> (j: Job) {
        let (id, unit_name, ty, state, object_path, unit_object_path) = t;
        Job { id, unit_name, ty, state, object_path, unit_object_path }
    }
}

impl vstd::std_specs::convert::FromSpecImpl<JobTuple> for Job {
    open spec fn obeys_from_spec() -> bool {
        true
    }

    open spec fn from_spec(t: JobTuple) -> Self {
        spec_job_from_tuple(t)
    }
}

/// The adaptation of a whole job list, row by row, order kept.
pub open spec fn spec_jobs_from_tuples(ts: Seq<JobTuple>) -> Seq<Job> {
    ts.map_values(|t: JobTuple| spec_job_from_tuple(t))
}

/// Adapt every row of a job list, keeping the order; an empty list gives an
/// empty list.
pub fn jobs_from_tuples(tuples: Vec<JobTuple>) -> (jobs: Vec<Job>)
    ensures
        jobs@ == spec_jobs_from_tuples(tuples@),
        jobs@.len() == tuples@.len(),
{
    let ghost orig = tuples@;
    let mut rest = tuples;
    let mut jobs: Vec<Job> = Vec::new();
    while rest.len() > 0
        invariant
            jobs@.len() + rest@.len() == orig.len(),
            rest@ =~= orig.skip(jobs@.len() as int),
            jobs@ =~= spec_jobs_from_tuples(orig.take(jobs@.len() as int)),
        decreases rest@.len(),
    {
        let t = rest.remove(0);
        jobs.push(Job::from(t));
        proof {
            let n = jobs@.len() as int;
            assert(orig.take(n).drop_last() =~= orig.take(n - 1));
            assert(jobs@ =~= spec_jobs_from_tuples(orig.take(n)));
        }
    }
    proof {
        assert(orig.take(orig.len() as int) =~= orig);
    }
    jobs
}

/// A unit-list row adapts to a record whose followed unit is absent exactly
/// when the wire field was the empty string, and otherwise carries it
/// verbatim.
pub proof fn lemma_follow_unit_absence(t: UnitTuple)
    ensures
        spec_unit_from_tuple(t).follow_unit is None <==> t.5@.len() == 0,
        t.5@.len() > 0 ==> spec_unit_from_tuple(t).follow_unit == Some(t.5),
{
}

/// An empty unit list and an empty job list adapt to empty sequences.
pub proof fn lemma_empty_lists_adapt_to_empty()
    ensures
        spec_units_from_tuples(Seq::<UnitTuple>::empty()) =~= Seq::<Unit>::empty(),
        spec_jobs_from_tuples(Seq::<JobTuple>::empty()) =~= Seq::<Job>::empty(),
{
}

/// A snapshot of one unit's identity and state axes, read by property
/// query against the unit's object.
#[derive(Clone, Debug)]
pub struct UnitProps {
    pub id: String,
    pub description: String,
    pub load_state: UnitLoadStateType,
    pub active_state: UnitActiveStateType,
    pub sub_state: UnitSubStateType,
}

impl UnitProps {
    /// A builder with no field set yet.
    pub fn builder() -> (b: UnitPropsBuilder)
        ensures
            b == UnitPropsBuilder::spec_new(),
    {
        UnitPropsBuilder::new()
    }
}

/// Staged assembly of a [`UnitProps`]; every field must be supplied before
/// `build`.
pub struct UnitPropsBuilder {
    pub id: Option<String>,
    pub description: Option<String>,
    pub load_state: Option<UnitLoadStateType>,
    pub active_state: Option<UnitActiveStateType>,
    pub sub_state: Option<UnitSubStateType>,
}

impl Default for UnitPropsBuilder {
    /// Same as [`UnitPropsBuilder::new`].
    fn default() -> (b: Self)
        ensures
            b == UnitPropsBuilder::spec_new(),
    {
        Self::new()
    }
}

impl UnitPropsBuilder {
    /// The builder with no field set.
    pub open spec fn spec_new() -> Self {
        UnitPropsBuilder {
            id: None,
            description: None,
            load_state: None,
            active_state: None,
            sub_state: None,
        }
    }

    /// Start with no field set.
    pub fn new() -> (b: Self)
        ensures
            b == Self::spec_new(),
    {
        UnitPropsBuilder {
            id: None,
            description: None,
            load_state: None,
            active_state: None,
            sub_state: None,
        }
    }

    /// Set the unit's id.
    pub fn id(self, id: String) -> (b: Self)
        ensures
            b == (Self { id: Some(id), ..self }),
    {
        Self { id: Some(id), ..self }
    }

    /// Set the unit's description.
    pub fn description(self, description: String) -> (b: Self)
        ensures
            b == (Self { description: Some(description), ..self }),
    {
        Self { description: Some(description), ..self }
    }

    /// Set the load state, parsed from the manager's string.
    pub fn load_state(self, load_state: String) -> (b: Self)
        ensures
            b == (Self { load_state: Some(spec_parse_load_state(load_state)), ..self }),
    {
        let parsed = UnitLoadStateType::from_string(load_state);
        Self { load_state: Some(parsed), ..self }
    }

    /// Set the active state, parsed from the manager's string.
    pub fn active_state(self, active_state: String) -> (b: Self)
        ensures
            b == (Self { active_state: Some(spec_parse_active_state(active_state)), ..self }),
    {
        let parsed = UnitActiveStateType::from_string(active_state);
        Self { active_state: Some(parsed), ..self }
    }

    /// Set the sub state, parsed from the manager's string.
    pub fn sub_state(self, sub_state: String) -> (b: Self)
        ensures
            b == (Self { sub_state: Some(spec_parse_sub_state(sub_state)), ..self }),
    {
        let parsed = UnitSubStateType::from_string(sub_state);
        Self { sub_state: Some(parsed), ..self }
    }

    /// Materialize the snapshot.  Calling `build` before every field is set
    /// is a programming error, so it is ruled out here rather than handled
    /// at run time.
    pub fn build(self) -> (p: UnitProps)
        requires
            self.id is Some,
            self.description is Some,
            self.load_state is Some,
            self.active_state is Some,
            self.sub_state is Some,
        ensures
            p.id == self.id->0,
            p.description == self.description->0,
            p.load_state == self.load_state->0,
            p.active_state == self.active_state->0,
            p.sub_state == self.sub_state->0,
    {
        UnitProps {
            id: self.id.unwrap(),
            description: self.description.unwrap(),
            load_state: self.load_state.unwrap(),
            active_state: self.active_state.unwrap(),
            sub_state: self.sub_state.unwrap(),
        }
    }
}

/// The names a property bag is expected to carry.
#[derive(Clone, Copy, Debug, PartialEq, Eq, Structural)]
pub enum PropertyKey {
    Id,
    Description,
    LoadState,
    ActiveState,
    SubState,
}

impl PropertyKey {
    /// The key string the manager uses for this property.
    pub open spec fn spec_name(self) -> Seq<char> {
        match self {
            PropertyKey::Id => "Id"@,
            PropertyKey::Description => "Description"@,
            PropertyKey::LoadState => "LoadState"@,
            PropertyKey::ActiveState => "ActiveState"@,
            PropertyKey::SubState => "SubState"@,
        }
    }

    /// The key string the manager uses for this property.
    pub fn name(&self) -> (r: String)
        ensures
            r@ == self.spec_name(),
    {
        match self {
            PropertyKey::Id => String::from_str("Id"),
            PropertyKey::Description => String::from_str("Description"),
            PropertyKey::LoadState => String::from_str("LoadState"),
            PropertyKey::ActiveState => String::from_str("ActiveState"),
            PropertyKey::SubState => String::from_str("SubState"),
        }
    }
}

/// One value of a property bag: either wire text, or a value of some other
/// wire type this client does not read.
#[derive(Clone, Debug)]
pub enum PropValue {
    Str(String),
    NonString,
}

/// What the first entry of the bag under `key` holds, if any.
pub open spec fn spec_bag_lookup(bag: Seq<(String, PropValue)>, key: Seq<char>) -> Option<
    PropValue,
>
    decreases bag.len(),
{
    if bag.len() == 0 {
        None
    } else if bag[0].0@ == key {
        Some(bag[0].1)
    } else {
        spec_bag_lookup(bag.drop_first(), key)
    }
}

/// The text under `key`, if the bag holds text there.
pub open spec fn spec_bag_get_str(bag: Seq<(String, PropValue)>, key: Seq<char>) -> Option<
    String,
> {
    match spec_bag_lookup(bag, key) {
        Some(PropValue::Str(s)) => Some(s),
        _ => None,
    }
}

/// Fetch the text under `key`: the first entry with that key, and only if
/// it holds text.
pub fn bag_get_str(bag: &Vec<(String, PropValue)>, key: &str) -> (r: Option<String>)
    ensures
        r == spec_bag_get_str(bag@, key@),
{
    let mut i: usize = 0;
    proof {
        assert(bag@.skip(0) =~= bag@);
    }
    while i < bag.len()
        invariant
            i <= bag@.len(),
            spec_bag_lookup(bag@, key@) == spec_bag_lookup(bag@.skip(i as int), key@),
        decreases bag@.len() - i,
    {
        proof {
            assert(bag@.skip(i as int).drop_first() =~= bag@.skip(i as int + 1));
        }
        if str_eq(bag[i].0.as_str(), key) {
            match &bag[i].1 {
                PropValue::Str(s) => {
                    return Some(s.clone());
                },
                PropValue::NonString => {
                    return None;
                },
            }
        }
        i += 1;
    }
    None
}

/// Whether the bag carries text under every key a snapshot requires.
pub open spec fn spec_bag_complete(bag: Seq<(String, PropValue)>) -> bool {
    &&& spec_bag_get_str(bag, "Id"@) is Some
    &&& spec_bag_get_str(bag, "LoadState"@) is Some
    &&& spec_bag_get_str(bag, "ActiveState"@) is Some
    &&& spec_bag_get_str(bag, "SubState"@) is Some
}

/// The first required key the bag fails to carry text under, in the order
/// the snapshot is assembled.
pub open spec fn spec_bag_first_missing(bag: Seq<(String, PropValue)>) -> PropertyKey
    recommends
        !spec_bag_complete(bag),
{
    if spec_bag_get_str(bag, "Id"@) is None {
        PropertyKey::Id
    } else if spec_bag_get_str(bag, "LoadState"@) is None {
        PropertyKey::LoadState
    } else if spec_bag_get_str(bag, "ActiveState"@) is None {
        PropertyKey::ActiveState
    } else {
        PropertyKey::SubState
    }
}

/// The description a bag yields: the text under `Description`, or empty
/// when that key is absent or holds no text.
pub open spec fn spec_bag_description(bag: Seq<(String, PropValue)>) -> Seq<char> {
    match spec_bag_get_str(bag, "Description"@) {
        Some(d) => d@,
        None => Seq::<char>::empty(),
    }
}

/// Assemble a snapshot from a property bag.  `Id`, `LoadState`,
/// `ActiveState` and `SubState` must be present as text — a bag without
/// them is the manager breaking its contract, reported as such — while a
/// missing `Description` defaults to the empty string.
pub fn unit_props_from_bag(bag: &Vec<(String, PropValue)>) -> (r: Result<UnitProps, Error>)
    ensures
        r is Ok <==> spec_bag_complete(bag@),
        r matches Ok(p) ==> {
            &&& p.id == spec_bag_get_str(bag@, "Id"@)->0
            &&& p.description@ == spec_bag_description(bag@)
            &&& p.load_state == spec_parse_load_state(spec_bag_get_str(bag@, "LoadState"@)->0)
            &&& p.active_state == spec_parse_active_state(
                spec_bag_get_str(bag@, "ActiveState"@)->0,
            )
            &&& p.sub_state == spec_parse_sub_state(spec_bag_get_str(bag@, "SubState"@)->0)
        },
        r matches Err(e) ==> e == Error::ContractViolation(spec_bag_first_missing(bag@)),
{
    let id = match bag_get_str(bag, "Id") {
        Some(s) => s,
        None => {
            return Err(Error::ContractViolation(PropertyKey::Id));
        },
    };
    let load_state = match bag_get_str(bag, "LoadState") {
        Some(s) => s,
        None => {
            return Err(Error::ContractViolation(PropertyKey::LoadState));
        },
    };
    let active_state = match bag_get_str(bag, "ActiveState") {
        Some(s) => s,
        None => {
            return Err(Error::ContractViolation(PropertyKey::ActiveState));
        },
    };
    let sub_state = match bag_get_str(bag, "SubState") {
        Some(s) => s,
        None => {
            return Err(Error::ContractViolation(PropertyKey::SubState));
        },
    };
    let description = match bag_get_str(bag, "Description") {
        Some(s) => s,
        None => String::new(),
    };
    let props = UnitProps::builder().id(id).description(description).load_state(
        load_state,
    ).active_state(active_state).sub_state(sub_state).build();
    Ok(props)
}

} // verus!

