use vstd::prelude::*;

use crate::ApiError;
use crate::geometry::{Feature, FeatureModel, feature_model_of, transcode, wkt_model};
use crate::neighbors::{NeighborMap, table_lookup};
use crate::store::{RegionRecord, RegionRecordModel, StoreError};

verus! {

// ============================================================================
// The request pipeline: resolve the address to a county, expand it to its
// neighbors, fetch every county's region records, transcode each record's
// geometry, and assemble the response. Each stage is a pure step; the I/O
// between the stages (the provider call, the blob fetch, the store queries)
// is driven from outside and handed in as events.
// ============================================================================

/// The geocoded center of the request, as the provider's numeric tokens.
pub struct Center {
    pub lat: String,
    pub lon: String,
}

impl DeepView for Center {
    type V = (Seq<char>, Seq<char>);

    open spec fn deep_view(&self) -> Self::V {
        (self.lat@, self.lon@)
    }
}

/// The classification of one address component: the county-equivalent
/// administrative tag, or any other tag.
#[derive(Clone, Copy, PartialEq, Eq, Structural, Debug)]
pub enum AreaTag {
    AdministrativeAreaLevel2,
    Other,
}

/// One address component of a geocoding candidate.
pub struct AddressComponent {
    pub long_name: String,
    pub tags: Vec<AreaTag>,
}

impl DeepView for AddressComponent {
    type V = (Seq<char>, Seq<AreaTag>);

    open spec fn deep_view(&self) -> Self::V {
        (self.long_name@, self.tags@)
    }
}

/// One candidate the geocoding provider returns: a center coordinate and the
/// ordered address components.
pub struct GeocodeCandidate {
    pub center: Center,
    pub components: Vec<AddressComponent>,
}

/// The mathematical model of a `GeocodeCandidate`.
pub struct CandidateModel {
    pub center: (Seq<char>, Seq<char>),
    pub components: Seq<(Seq<char>, Seq<AreaTag>)>,
}

impl DeepView for GeocodeCandidate {
    type V = CandidateModel;

    open spec fn deep_view(&self) -> CandidateModel {
        CandidateModel { center: self.center.deep_view(), components: self.components.deep_view() }
    }
}

// ============================================================================
// County resolution: the first component tagged as a county-equivalent area,
// with the suffix decoration stripped.
// ============================================================================

pub open spec fn has_admin2_tag(tags: Seq<AreaTag>) -> bool {
    exists|i: int| 0 <= i < tags.len() && tags[i] is AdministrativeAreaLevel2
}

/// The long name of the first county-tagged component at or after `i`.
pub open spec fn first_admin2_from(comps: Seq<(Seq<char>, Seq<AreaTag>)>, i: int) -> Option<
    Seq<char>,
>
    decreases comps.len() - i,
{
    if i < 0 || i >= comps.len() {
        Option::None
    } else if has_admin2_tag(comps[i].1) {
        Option::Some(comps[i].0)
    } else {
        first_admin2_from(comps, i + 1)
    }
}

/// A county name free of the suffix decoration: a trailing " County" is
/// taken off once.
pub open spec fn strip_suffix(name: Seq<char>) -> Seq<char> {
    if name.len() >= 7 && name.subrange(name.len() - 7, name.len() as int) == " County"@ {
        name.subrange(0, name.len() - 7)
    } else {
        name
    }
}

/// The county a candidate's components resolve to, if any is tagged.
pub open spec fn target_county_model(comps: Seq<(Seq<char>, Seq<AreaTag>)>) -> Option<Seq<char>> {
    match first_admin2_from(comps, 0) {
        Option::None => Option::None,
        Option::Some(name) => Option::Some(strip_suffix(name)),
    }
}

/// What the geocoding outcome resolves to: no candidate or no tagged
/// component is a not-found condition; otherwise the first candidate's
/// center and its county.
pub open spec fn select_model(results: Seq<CandidateModel>) -> Result<
    ((Seq<char>, Seq<char>), Seq<char>),
    ApiError,
> {
    if results.len() == 0 {
        Result::Err(ApiError::NotFound)
    } else {
        match target_county_model(results[0].components) {
            Option::None => Result::Err(ApiError::NotFound),
            Option::Some(county) => Result::Ok((results[0].center, county)),
        }
    }
}

fn tags_have_admin2(tags: &Vec<AreaTag>) -> (b: bool)
    ensures
        b == has_admin2_tag(tags@),
{
    let mut i: usize = 0;
    while i < tags.len()
        invariant
            i <= tags@.len(),
            forall|j: int| 0 <= j < i ==> !(tags@[j] is AdministrativeAreaLevel2),
        decreases tags@.len() - i,
    {
        if tags[i] == AreaTag::AdministrativeAreaLevel2 {
            return true;
        }
        i = i + 1;
    }
    false
}

fn first_admin2_exec(comps: &Vec<AddressComponent>, i: usize) -> (r: Option<String>)
    requires
        i <= comps@.len(),
    ensures
        r is Some <==> first_admin2_from(comps.deep_view(), i as int) is Some,
        r is Some ==> r->Some_0@ == first_admin2_from(comps.deep_view(), i as int)->Some_0,
    decreases comps@.len() - i,
{
    if i < comps.len() {
        if tags_have_admin2(&comps[i].tags) {
            Option::Some(comps[i].long_name.clone())
        } else {
            first_admin2_exec(comps, i + 1)
        }
    } else {
        Option::None
    }
}

/// Strip the suffix decoration off a county name.
pub fn strip_county_suffix(name: &String) -> (r: String)
    ensures
        r@ == strip_suffix(name@),
{
    let n = name.as_str().unicode_len();
    if n >= 7 {
        let tail = name.as_str().substring_char(n - 7, n).to_owned();
        if tail == String::from_str(" County") {
            name.as_str().substring_char(0, n - 7).to_owned()
        } else {
            name.clone()
        }
    } else {
        name.clone()
    }
}

/// Resolve the provider's candidates to the request's center and target
/// county, or to the not-found condition where there is no candidate or the
/// first candidate has no county-tagged component.
pub fn select_target_county(results: &Vec<GeocodeCandidate>) -> (r: Result<
    (Center, String),
    ApiError,
>)
    ensures
        r is Ok <==> select_model(results.deep_view()) is Ok,
        r is Ok ==> (r->Ok_0).0.deep_view() == (select_model(results.deep_view())->Ok_0).0,
        r is Ok ==> (r->Ok_0).1@ == (select_model(results.deep_view())->Ok_0).1,
        r is Err ==> r->Err_0 == select_model(results.deep_view())->Err_0,
{
    if results.len() == 0 {
        return Result::Err(ApiError::NotFound);
    }
    match first_admin2_exec(&results[0].components, 0) {
        Option::None => Result::Err(ApiError::NotFound),
        Option::Some(name) => {
            let county = strip_county_suffix(&name);
            let center = Center {
                lat: results[0].center.lat.clone(),
                lon: results[0].center.lon.clone(),
            };
            Result::Ok((center, county))
        },
    }
}

// ============================================================================
// The county set: the target county first, then its stored neighbors.
// ============================================================================

/// The counties a request queries: the target, then its neighbors where the
/// table has a row for it.
pub open spec fn county_set_model(
    target: Seq<char>,
    table: Seq<(Seq<char>, Seq<Seq<char>>)>,
) -> Seq<Seq<char>> {
    match table_lookup(table, target) {
        Option::None => seq![target],
        Option::Some(ns) => seq![target] + ns,
    }
}

/// Build the county set. It always holds the target county first; a county
/// without a table row simply has no neighbors appended.
pub fn build_county_set(target: String, map: &NeighborMap) -> (r: Vec<String>)
    ensures
        r.deep_view() == county_set_model(target@, map.deep_view()),
        r@.len() >= 1,
        r.deep_view()[0] == target@,
{
    let ghost t = target@;
    let ns = map.neighbors_of(&target);
    let mut set: Vec<String> = Vec::new();
    set.push(target);
    match ns {
        Option::None => {
            proof {
                assert(set.deep_view() =~= county_set_model(t, map.deep_view()));
            }
            set
        },
        Option::Some(neighbors) => {
            let ghost nm = neighbors.deep_view();
            let mut i: usize = 0;
            while i < neighbors.len()
                invariant
                    i <= neighbors@.len(),
                    nm == neighbors.deep_view(),
                    nm.len() == neighbors@.len(),
                    set@.len() == 1 + i,
                    set.deep_view()[0] == t,
                    forall|j: int| 0 <= j < i ==> set.deep_view()[j + 1] == nm[j],
                decreases neighbors@.len() - i,
            {
                set.push(neighbors[i].clone());
                i = i + 1;
            }
            proof {
                assert(set.deep_view() =~= seq![t] + nm);
            }
            set
        },
    }
}

// ============================================================================
// Response assembly: every record whose geometry transcodes becomes one
// area; a record with malformed geometry is dropped, never surfaced partly.
// ============================================================================

/// One area of the response.
#[derive(Debug)]
pub struct Area {
    pub geo_id: String,
    pub county: String,
    pub risk_percentile: String,
    pub geometry: Feature,
}

/// The mathematical model of an `Area`.
pub struct AreaModel {
    pub geo_id: Seq<char>,
    pub county: Seq<char>,
    pub risk_percentile: Seq<char>,
    pub geometry: FeatureModel,
}

impl DeepView for Area {
    type V = AreaModel;

    open spec fn deep_view(&self) -> AreaModel {
        AreaModel {
            geo_id: self.geo_id@,
            county: self.county@,
            risk_percentile: self.risk_percentile@,
            geometry: self.geometry.deep_view(),
        }
    }
}

/// The areas a record list assembles to: one per record whose geometry text
/// is well formed, in record order.
pub open spec fn areas_model(records: Seq<RegionRecordModel>) -> Seq<AreaModel>
    decreases records.len(),
{
    if records.len() == 0 {
        Seq::empty()
    } else {
        let rest = areas_model(records.drop_first());
        match wkt_model(records[0].geometry) {
            Option::None => rest,
            Option::Some(g) => seq![
                AreaModel {
                    geo_id: records[0].geo_id,
                    county: records[0].county,
                    risk_percentile: records[0].risk_percentile,
                    geometry: feature_model_of(g),
                },
            ] + rest,
        }
    }
}

/// Law: every assembled area comes from a record whose geometry text is
/// well formed, and carries that record's fields and its transcoded
/// geometry whole — a record is surfaced fully or not at all.
pub proof fn lemma_areas_only_from_well_formed(records: Seq<RegionRecordModel>, k: int)
    requires
        0 <= k < areas_model(records).len(),
    ensures
        exists|i: int|
            0 <= i < records.len() && wkt_model(records[i].geometry) is Some && areas_model(
                records,
            )[k] == (AreaModel {
                geo_id: records[i].geo_id,
                county: records[i].county,
                risk_percentile: records[i].risk_percentile,
                geometry: feature_model_of(wkt_model(records[i].geometry)->Some_0),
            }),
    decreases records.len(),
{
    let rest = records.drop_first();
    if wkt_model(records[0].geometry) is Some {
        if k == 0 {
            assert(0 < records.len() && wkt_model(records[0].geometry) is Some && areas_model(
                records,
            )[0] == (AreaModel {
                geo_id: records[0].geo_id,
                county: records[0].county,
                risk_percentile: records[0].risk_percentile,
                geometry: feature_model_of(wkt_model(records[0].geometry)->Some_0),
            }));
        } else {
            lemma_areas_only_from_well_formed(rest, k - 1);
            let i = choose|i: int|
                0 <= i < rest.len() && wkt_model(rest[i].geometry) is Some && areas_model(rest)[k
                    - 1] == (AreaModel {
                    geo_id: rest[i].geo_id,
                    county: rest[i].county,
                    risk_percentile: rest[i].risk_percentile,
                    geometry: feature_model_of(wkt_model(rest[i].geometry)->Some_0),
                });
            assert(0 <= i + 1 < records.len() && wkt_model(records[i + 1].geometry) is Some
                && areas_model(records)[k] == (AreaModel {
                geo_id: records[i + 1].geo_id,
                county: records[i + 1].county,
                risk_percentile: records[i + 1].risk_percentile,
                geometry: feature_model_of(wkt_model(records[i + 1].geometry)->Some_0),
            }));
        }
    } else {
        lemma_areas_only_from_well_formed(rest, k);
        let i = choose|i: int|
            0 <= i < rest.len() && wkt_model(rest[i].geometry) is Some && areas_model(rest)[k] == (
            AreaModel {
                geo_id: rest[i].geo_id,
                county: rest[i].county,
                risk_percentile: rest[i].risk_percentile,
                geometry: feature_model_of(wkt_model(rest[i].geometry)->Some_0),
            });
        assert(0 <= i + 1 < records.len() && wkt_model(records[i + 1].geometry) is Some
            && areas_model(records)[k] == (AreaModel {
            geo_id: records[i + 1].geo_id,
            county: records[i + 1].county,
            risk_percentile: records[i + 1].risk_percentile,
            geometry: feature_model_of(wkt_model(records[i + 1].geometry)->Some_0),
        }));
    }
}

/// Assemble the response areas: transcode each record's geometry and keep
/// exactly the records whose geometry is well formed.
pub fn assemble_areas(records: Vec<RegionRecord>) -> (r: Vec<Area>)
    ensures
        r.deep_view() == areas_model(records.deep_view()),
    decreases records@.len(),
{
    let ghost orig = records.deep_view();
    let mut records = records;
    if records.len() == 0 {
        let empty: Vec<Area> = Vec::new();
        proof {
            assert(empty.deep_view() =~= areas_model(orig));
        }
        return empty;
    }
    let first = records.remove(0);
    proof {
        assert(records.deep_view() =~= orig.drop_first());
    }
    let rest = assemble_areas(records);
    match transcode(first.geometry.as_str()) {
        Option::None => rest,
        Option::Some(f) => {
            let mut rest = rest;
            let ghost rest0 = rest.deep_view();
            rest.insert(
                0,
                Area {
                    geo_id: first.geo_id,
                    county: first.county,
                    risk_percentile: first.risk_percentile,
                    geometry: f,
                },
            );
            proof {
                assert(rest.deep_view() =~= seq![rest@[0].deep_view()] + rest0);
                assert(rest.deep_view() =~= areas_model(orig));
            }
            rest
        },
    }
}

/// The aggregated answer of one request.
pub struct GeocodeResponse {
    pub center: Center,
    pub areas: Vec<Area>,
}

/// The mathematical model of a `GeocodeResponse`.
pub struct ResponseModel {
    pub center: (Seq<char>, Seq<char>),
    pub areas: Seq<AreaModel>,
}

impl DeepView for GeocodeResponse {
    type V = ResponseModel;

    open spec fn deep_view(&self) -> ResponseModel {
        ResponseModel { center: self.center.deep_view(), areas: self.areas.deep_view() }
    }
}

// ============================================================================
// The pipeline state machine. The caller performs the I/O a state asks for
// and hands the outcome back as the event; every decision between the I/O
// steps is made here.
// ============================================================================

/// Where a request stands: which outcome it waits for next, or how it ended.
pub enum PipelineState {
    /// Awaiting the geocoding provider's answer for the address.
    Start,
    /// Awaiting the county-adjacency table.
    NeedNeighborMap { center: Center, target: String },
    /// Awaiting the fan-out over the county set.
    NeedRecords { center: Center, counties: Vec<String> },
    /// The request is answered.
    Done { result: Result<GeocodeResponse, ApiError> },
}

/// The mathematical model of a `PipelineState`.
pub enum PipelineStateModel {
    Start,
    NeedNeighborMap { center: (Seq<char>, Seq<char>), target: Seq<char> },
    NeedRecords { center: (Seq<char>, Seq<char>), counties: Seq<Seq<char>> },
    Done { result: Result<ResponseModel, ApiError> },
}

impl DeepView for PipelineState {
    type V = PipelineStateModel;

    open spec fn deep_view(&self) -> PipelineStateModel {
        match self {
            PipelineState::Start => PipelineStateModel::Start,
            PipelineState::NeedNeighborMap { center, target } => {
                PipelineStateModel::NeedNeighborMap {
                    center: center.deep_view(),
                    target: target@,
                }
            },
            PipelineState::NeedRecords { center, counties } => {
                PipelineStateModel::NeedRecords {
                    center: center.deep_view(),
                    counties: counties.deep_view(),
                }
            },
            PipelineState::Done { result } => {
                PipelineStateModel::Done {
                    result: match result {
                        Result::Ok(resp) => Result::Ok(resp.deep_view()),
                        Result::Err(e) => Result::Err(*e),
                    },
                }
            },
        }
    }
}

/// One outcome of the outside work a state asked for. A collaborator
/// failure carries no detail into the pipeline; it is answered as an
/// upstream failure (the detail is for the caller to log).
pub enum PipelineEvent {
    /// The provider's candidates, or nothing where the call itself failed.
    Geocoded(Option<Vec<GeocodeCandidate>>),
    /// The parsed adjacency table, or nothing where the fetch or the parse
    /// failed.
    MapLoaded(Option<NeighborMap>),
    /// The aggregated fan-out outcome.
    RecordsFetched(Result<Vec<RegionRecord>, StoreError>),
}

/// The mathematical model of a `PipelineEvent`.
pub enum PipelineEventModel {
    Geocoded(Option<Seq<CandidateModel>>),
    MapLoaded(Option<Seq<(Seq<char>, Seq<Seq<char>>)>>),
    RecordsFetched(Result<Seq<RegionRecordModel>, Seq<char>>),
}

impl DeepView for PipelineEvent {
    type V = PipelineEventModel;

    open spec fn deep_view(&self) -> PipelineEventModel {
        match self {
            PipelineEvent::Geocoded(o) => PipelineEventModel::Geocoded(o.deep_view()),
            PipelineEvent::MapLoaded(o) => PipelineEventModel::MapLoaded(o.deep_view()),
            PipelineEvent::RecordsFetched(r) => PipelineEventModel::RecordsFetched(
                match r {
                    Result::Ok(v) => Result::Ok(v.deep_view()),
                    Result::Err(e) => Result::Err(e.deep_view()),
                },
            ),
        }
    }
}

/// What one step of the pipeline does with the awaited outcome. An event
/// that does not belong to the state leaves the state as it stands.
pub open spec fn pipeline_step_model(
    state: PipelineStateModel,
    event: PipelineEventModel,
) -> PipelineStateModel {
    match (state, event) {
        (PipelineStateModel::Start, PipelineEventModel::Geocoded(outcome)) => match outcome {
            Option::None => PipelineStateModel::Done {
                result: Result::Err(ApiError::UpstreamFailure),
            },
            Option::Some(results) => match select_model(results) {
                Result::Err(e) => PipelineStateModel::Done { result: Result::Err(e) },
                Result::Ok((center, county)) => PipelineStateModel::NeedNeighborMap {
                    center: center,
                    target: county,
                },
            },
        },
        (
            PipelineStateModel::NeedNeighborMap { center, target },
            PipelineEventModel::MapLoaded(outcome),
        ) => match outcome {
            Option::None => PipelineStateModel::Done {
                result: Result::Err(ApiError::UpstreamFailure),
            },
            Option::Some(table) => PipelineStateModel::NeedRecords {
                center: center,
                counties: county_set_model(target, table),
            },
        },
        (
            PipelineStateModel::NeedRecords { center, counties: _ },
            PipelineEventModel::RecordsFetched(outcome),
        ) => match outcome {
            Result::Err(_) => PipelineStateModel::Done {
                result: Result::Err(ApiError::UpstreamFailure),
            },
            Result::Ok(records) => {
                let areas = areas_model(records);
                if areas.len() == 0 {
                    PipelineStateModel::Done { result: Result::Err(ApiError::NotFound) }
                } else {
                    PipelineStateModel::Done {
                        result: Result::Ok(ResponseModel { center: center, areas: areas }),
                    }
                }
            },
        },
        (other, _) => other,
    }
}

/// Run one step of the pipeline on the awaited outcome.
pub fn pipeline_step(state: PipelineState, event: PipelineEvent) -> (r: PipelineState)
    ensures
        r.deep_view() == pipeline_step_model(state.deep_view(), event.deep_view()),
{
    match (state, event) {
        (PipelineState::Start, PipelineEvent::Geocoded(outcome)) => match outcome {
            Option::None => PipelineState::Done {
                result: Result::Err(ApiError::UpstreamFailure),
            },
            Option::Some(results) => match select_target_county(&results) {
                Result::Err(e) => PipelineState::Done { result: Result::Err(e) },
                Result::Ok((center, county)) => PipelineState::NeedNeighborMap {
                    center: center,
                    target: county,
                },
            },
        },
        (
            PipelineState::NeedNeighborMap { center, target },
            PipelineEvent::MapLoaded(outcome),
        ) => match outcome {
            Option::None => PipelineState::Done {
                result: Result::Err(ApiError::UpstreamFailure),
            },
            Option::Some(table) => {
                let counties = build_county_set(target, &table);
                PipelineState::NeedRecords { center: center, counties: counties }
            },
        },
        (
            PipelineState::NeedRecords { center, counties: _ },
            PipelineEvent::RecordsFetched(outcome),
        ) => match outcome {
            Result::Err(_) => PipelineState::Done {
                result: Result::Err(ApiError::UpstreamFailure),
            },
            Result::Ok(records) => {
                let areas = assemble_areas(records);
                if areas.len() == 0 {
                    PipelineState::Done { result: Result::Err(ApiError::NotFound) }
                } else {
                    PipelineState::Done {
                        result: Result::Ok(GeocodeResponse { center: center, areas: areas }),
                    }
                }
            },
        },
        (other, _) => other,
    }
}

// ============================================================================
// Laws of the pipeline.
// ============================================================================

/// Law: a step of a pipeline that is not yet done never answers success with
/// an empty area list; a request whose aggregation yields no valid region
/// ends as not found.
pub proof fn lemma_no_empty_success(state: PipelineStateModel, event: PipelineEventModel)
    requires
        !(state is Done),
    ensures
        pipeline_step_model(state, event) matches PipelineStateModel::Done { result } ==> (
        result is Ok ==> (result->Ok_0).areas.len() > 0),
{
}

/// Law: the county set of a step always holds the resolved target county,
/// and holds it first.
pub proof fn lemma_county_set_holds_target(
    target: Seq<char>,
    table: Seq<(Seq<char>, Seq<Seq<char>>)>,
)
    ensures
        county_set_model(target, table).len() >= 1,
        county_set_model(target, table)[0] == target,
{
}

} // verus!
