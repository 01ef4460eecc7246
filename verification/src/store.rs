use vstd::prelude::*;

use crate::geometry::is_numeric_token;

verus! {

// ============================================================================
// Region records and the raw store items they are read from.
// ============================================================================

/// One row of the keyed data store: one geographic sub-area of a county.
/// The risk percentile is kept as the store's numeric token.
#[derive(Debug)]
pub struct RegionRecord {
    pub geo_id: String,
    pub county: String,
    pub geometry: String,
    pub risk_percentile: String,
}

/// The mathematical model of a `RegionRecord`.
pub struct RegionRecordModel {
    pub geo_id: Seq<char>,
    pub county: Seq<char>,
    pub geometry: Seq<char>,
    pub risk_percentile: Seq<char>,
}

impl DeepView for RegionRecord {
    type V = RegionRecordModel;

    open spec fn deep_view(&self) -> RegionRecordModel {
        RegionRecordModel {
            geo_id: self.geo_id@,
            county: self.county@,
            geometry: self.geometry@,
            risk_percentile: self.risk_percentile@,
        }
    }
}

/// A failing store call, carried as its message.
#[derive(Debug)]
pub struct StoreError {
    pub message: String,
}

impl DeepView for StoreError {
    type V = Seq<char>;

    open spec fn deep_view(&self) -> Seq<char> {
        self.message@
    }
}

/// One attribute of a raw store item: a text value, a numeric token, or a
/// value of some other attribute type.
pub enum RawValue {
    Text(String),
    Number(String),
    Other,
}

/// One named attribute of a raw store item.
pub struct RawField {
    pub name: String,
    pub value: RawValue,
}

/// One item as the store returns it: a list of named attributes.
pub struct RawItem {
    pub fields: Vec<RawField>,
}

/// The value of the first attribute named `name` at or after position `i`.
pub open spec fn field_value_from(fields: Seq<RawField>, name: Seq<char>, i: int) -> Option<
    RawValue,
>
    decreases fields.len() - i,
{
    if i < 0 || i >= fields.len() {
        Option::None
    } else if fields[i].name@ == name {
        Option::Some(fields[i].value)
    } else {
        field_value_from(fields, name, i + 1)
    }
}

pub open spec fn field_value(fields: Seq<RawField>, name: Seq<char>) -> Option<RawValue> {
    field_value_from(fields, name, 0)
}

pub open spec fn text_of(v: Option<RawValue>) -> Option<Seq<char>> {
    match v {
        Option::Some(RawValue::Text(s)) => Option::Some(s@),
        _ => Option::None,
    }
}

/// The percentile token of an item: the numeric attribute where it is
/// present and well formed, and nothing otherwise.
pub open spec fn percentile_of(v: Option<RawValue>) -> Option<Seq<char>> {
    match v {
        Option::Some(RawValue::Number(s)) => if is_numeric_token(s@) {
            Option::Some(s@)
        } else {
            Option::None
        },
        _ => Option::None,
    }
}

/// The record an item denotes: its three text attributes and its numeric
/// percentile, or nothing where any of the four is missing or of the wrong
/// shape — such an item is malformed and is skipped, never a crash.
pub open spec fn record_model(fields: Seq<RawField>) -> Option<RegionRecordModel> {
    match (
        text_of(field_value(fields, "GEOID"@)),
        text_of(field_value(fields, "County"@)),
        text_of(field_value(fields, "Geometry"@)),
        percentile_of(field_value(fields, "WeightedCrimePercentile"@)),
    ) {
        (Option::Some(g), Option::Some(c), Option::Some(w), Option::Some(p)) => Option::Some(
            RegionRecordModel { geo_id: g, county: c, geometry: w, risk_percentile: p },
        ),
        _ => Option::None,
    }
}

fn find_field_from(fields: &Vec<RawField>, name: &String, i: usize) -> (r: Option<usize>)
    requires
        i <= fields@.len(),
    ensures
        r is Some <==> field_value_from(fields@, name@, i as int) is Some,
        r is Some ==> r->Some_0 < fields@.len() && field_value_from(fields@, name@, i as int)
            == Option::Some(fields@[r->Some_0 as int].value),
    decreases fields@.len() - i,
{
    if i < fields.len() {
        if fields[i].name == *name {
            Option::Some(i)
        } else {
            find_field_from(fields, name, i + 1)
        }
    } else {
        Option::None
    }
}

fn text_field(fields: &Vec<RawField>, name: &String) -> (r: Option<String>)
    ensures
        r is Some <==> text_of(field_value(fields@, name@)) is Some,
        r is Some ==> r->Some_0@ == text_of(field_value(fields@, name@))->Some_0,
{
    match find_field_from(fields, name, 0) {
        Option::None => Option::None,
        Option::Some(i) => match &fields[i].value {
            RawValue::Text(s) => Option::Some(s.clone()),
            _ => Option::None,
        },
    }
}

fn percentile_field(fields: &Vec<RawField>, name: &String) -> (r: Option<String>)
    ensures
        r is Some <==> percentile_of(field_value(fields@, name@)) is Some,
        r is Some ==> r->Some_0@ == percentile_of(field_value(fields@, name@))->Some_0,
{
    match find_field_from(fields, name, 0) {
        Option::None => Option::None,
        Option::Some(i) => match &fields[i].value {
            RawValue::Number(s) => {
                if crate::geometry::is_numeric_token_exec(s.as_str()) {
                    Option::Some(s.clone())
                } else {
                    Option::None
                }
            },
            _ => Option::None,
        },
    }
}

/// Read one region record out of a raw store item. An item that misses one
/// of the text attributes or the numeric percentile, or holds one with
/// another type or a malformed token, is a malformed record: it gives
/// nothing and is skipped, never a crash.
pub fn extract_record(item: &RawItem) -> (r: Option<RegionRecord>)
    ensures
        r is Some <==> record_model(item.fields@) is Some,
        r is Some ==> r->Some_0.deep_view() == record_model(item.fields@)->Some_0,
{
    let geo_id = text_field(&item.fields, &String::from_str("GEOID"));
    let county = text_field(&item.fields, &String::from_str("County"));
    let geometry = text_field(&item.fields, &String::from_str("Geometry"));
    let percentile = percentile_field(&item.fields, &String::from_str("WeightedCrimePercentile"));
    match (geo_id, county, geometry, percentile) {
        (Option::Some(g), Option::Some(c), Option::Some(w), Option::Some(p)) => Option::Some(
            RegionRecord { geo_id: g, county: c, geometry: w, risk_percentile: p },
        ),
        _ => Option::None,
    }
}

// ============================================================================
// Pagination: one county's query is re-issued with the store's continuation
// token until the store returns none, and the pages are kept in store order.
// ============================================================================

/// One request of a paginated query.
pub struct PageRequest {
    pub county_key: String,
    pub start_token: Option<String>,
}

/// One page as the store returns it.
pub struct Page {
    pub items: Vec<RegionRecord>,
    pub next_token: Option<String>,
}

/// The running state of one county's paginated query.
pub struct Pagination {
    pub county_key: String,
    pub collected: Vec<RegionRecord>,
    pub next_token: Option<String>,
    pub requests_issued: u64,
    pub finished: bool,
}

/// Begin a paginated query for one county key: nothing collected, no
/// continuation token, no request issued yet.
pub fn pagination_start(county_key: String) -> (s: Pagination)
    ensures
        s.county_key == county_key,
        s.collected@.len() == 0,
        s.next_token is None,
        s.requests_issued == 0,
        !s.finished,
{
    Pagination {
        county_key,
        collected: Vec::new(),
        next_token: Option::None,
        requests_issued: 0,
        finished: false,
    }
}

/// The request to issue next: the county key with the pending continuation
/// token, or nothing once the query is finished.
pub fn pagination_next(s: &Pagination) -> (r: Option<PageRequest>)
    ensures
        r is Some <==> !s.finished,
        r is Some ==> r->Some_0.county_key@ == s.county_key@,
        r is Some ==> r->Some_0.start_token.deep_view() == s.next_token.deep_view(),
{
    if s.finished {
        Option::None
    } else {
        let token = match &s.next_token {
            Option::Some(t) => Option::Some(t.clone()),
            Option::None => Option::None,
        };
        Option::Some(PageRequest { county_key: s.county_key.clone(), start_token: token })
    }
}

/// Take one returned page in: its records are appended in page order, one
/// more request is counted, and the query finishes exactly when the store
/// returns no further continuation token.
pub fn pagination_step(s: &mut Pagination, page: Page)
    requires
        !old(s).finished,
        old(s).requests_issued < u64::MAX,
    ensures
        final(s).county_key == old(s).county_key,
        final(s).collected@ == old(s).collected@ + page.items@,
        final(s).requests_issued == old(s).requests_issued + 1,
        final(s).finished == (page.next_token is None),
        final(s).next_token == page.next_token,
{
    let mut page = page;
    s.collected.append(&mut page.items);
    s.requests_issued = s.requests_issued + 1;
    s.finished = match &page.next_token {
        Option::None => true,
        Option::Some(_) => false,
    };
    s.next_token = page.next_token;
}

// ============================================================================
// Fan-out: one query per county, all independent; the aggregate succeeds
// only when every one of them did, and fails with a failing county's error.
// ============================================================================

/// The store key a county is queried under: its name with the stored suffix.
pub fn county_key(county: &String) -> (r: String)
    ensures
        r@ == county@ + " County"@,
{
    county.clone().concat(" County")
}

/// The keys of a fan-out: exactly one query key per county, in county order.
pub fn fanout_keys(counties: &Vec<String>) -> (r: Vec<String>)
    ensures
        r@.len() == counties@.len(),
        forall|i: int| 0 <= i < r@.len() ==> r@[i]@ == counties@[i]@ + " County"@,
{
    let mut keys: Vec<String> = Vec::new();
    let mut i: usize = 0;
    while i < counties.len()
        invariant
            i <= counties@.len(),
            keys@.len() == i,
            forall|j: int| 0 <= j < i ==> keys@[j]@ == counties@[j]@ + " County"@,
        decreases counties@.len() - i,
    {
        keys.push(county_key(&counties[i]));
        i = i + 1;
    }
    keys
}

pub open spec fn all_ok(outcomes: Seq<Result<Vec<RegionRecord>, StoreError>>) -> bool {
    forall|i: int| 0 <= i < outcomes.len() ==> outcomes[i] is Ok
}

/// The records of all successful outcomes, in outcome order.
pub open spec fn concat_records(outcomes: Seq<Result<Vec<RegionRecord>, StoreError>>) -> Seq<
    RegionRecord,
>
    decreases outcomes.len(),
{
    if outcomes.len() == 0 {
        Seq::empty()
    } else {
        (match outcomes[0] {
            Result::Ok(v) => v@,
            Result::Err(_) => Seq::empty(),
        }) + concat_records(outcomes.drop_first())
    }
}

/// Law: one failing county query fails the whole fan-out: an outcome list
/// with an error in it never aggregates to a success, so no partial result
/// set ever comes back.
pub proof fn lemma_fanout_fail_fast(
    outcomes: Seq<Result<Vec<RegionRecord>, StoreError>>,
    i: int,
)
    requires
        0 <= i < outcomes.len(),
        outcomes[i] is Err,
    ensures
        !all_ok(outcomes),
{
}

/// Aggregate the per-county outcomes of a fan-out. All successes give the
/// concatenation of every county's records; any failure fails the whole
/// aggregate with that failure, and no partial result set comes back.
pub fn aggregate_fanout(outcomes: Vec<Result<Vec<RegionRecord>, StoreError>>) -> (r: Result<
    Vec<RegionRecord>,
    StoreError,
>)
    ensures
        r is Ok <==> all_ok(outcomes@),
        r is Ok ==> r->Ok_0@ == concat_records(outcomes@),
        r is Err ==> exists|i: int|
            0 <= i < outcomes@.len() && outcomes@[i] is Err && r->Err_0 == outcomes@[i]->Err_0,
    decreases outcomes@.len(),
{
    let ghost orig = outcomes@;
    let mut outcomes = outcomes;
    if outcomes.len() == 0 {
        return Result::Ok(Vec::new());
    }
    let first = outcomes.remove(0);
    match first {
        Result::Err(e) => {
            proof {
                assert(orig[0] is Err);
            }
            Result::Err(e)
        },
        Result::Ok(mut v) => {
            match aggregate_fanout(outcomes) {
                Result::Err(e) => {
                    proof {
                        let i = choose|i: int|
                            0 <= i < orig.drop_first().len() && orig.drop_first()[i] is Err && e
                                == orig.drop_first()[i]->Err_0;
                        assert(orig[i + 1] is Err && e == orig[i + 1]->Err_0);
                    }
                    Result::Err(e)
                },
                Result::Ok(mut rest) => {
                    proof {
                        assert forall|i: int| 0 <= i < orig.len() implies orig[i] is Ok by {
                            if i > 0 {
                                assert(orig.drop_first()[i - 1] is Ok);
                            }
                        }
                    }
                    v.append(&mut rest);
                    Result::Ok(v)
                },
            }
        },
    }
}

} // verus!
