use county_risk::geometry::GeometryKind;
use county_risk::neighbors::{parse_neighbor_map, NeighborEntry, NeighborMap};
use county_risk::pipeline::{
    build_county_set, pipeline_step, select_target_county, strip_county_suffix, AddressComponent,
    AreaTag, Center, GeocodeCandidate, PipelineEvent, PipelineState,
};
use county_risk::store::{RegionRecord, StoreError};
use county_risk::ApiError;

fn candidate(lat: &str, lon: &str, components: Vec<AddressComponent>) -> GeocodeCandidate {
    GeocodeCandidate {
        center: Center {
            lat: lat.to_string(),
            lon: lon.to_string(),
        },
        components,
    }
}

fn component(long_name: &str, tags: Vec<AreaTag>) -> AddressComponent {
    AddressComponent {
        long_name: long_name.to_string(),
        tags,
    }
}

fn record(geo_id: &str, county: &str, geometry: &str, pct: &str) -> RegionRecord {
    RegionRecord {
        geo_id: geo_id.to_string(),
        county: county.to_string(),
        geometry: geometry.to_string(),
        risk_percentile: pct.to_string(),
    }
}

fn entry(county: &str, neighbors: &[&str]) -> NeighborEntry {
    NeighborEntry {
        county: county.to_string(),
        neighbors: neighbors.iter().map(|n| n.to_string()).collect(),
    }
}

fn travis_candidates() -> Vec<GeocodeCandidate> {
    vec![candidate(
        "30.27",
        "-97.74",
        vec![
            component("Austin", vec![AreaTag::Other]),
            component(
                "Travis County",
                vec![AreaTag::Other, AreaTag::AdministrativeAreaLevel2],
            ),
            component("Texas", vec![AreaTag::Other]),
        ],
    )]
}

#[test]
fn strip_county_suffix_strips_once_and_only_at_the_end() {
    assert_eq!(strip_county_suffix(&"Travis County".to_string()), "Travis");
    assert_eq!(strip_county_suffix(&"Travis".to_string()), "Travis");
    assert_eq!(strip_county_suffix(&" County".to_string()), "");
    assert_eq!(
        strip_county_suffix(&"County Line".to_string()),
        "County Line"
    );
}

#[test]
fn select_takes_first_tagged_component_of_first_candidate() {
    let r = select_target_county(&travis_candidates()).unwrap();
    assert_eq!(r.0.lat, "30.27");
    assert_eq!(r.0.lon, "-97.74");
    assert_eq!(r.1, "Travis");
}

#[test]
fn select_without_candidates_or_tag_is_not_found() {
    match select_target_county(&vec![]) {
        Err(e) => assert_eq!(e, ApiError::NotFound),
        Ok(_) => panic!("no candidate must be a not-found condition"),
    }
    let untagged = vec![candidate(
        "1",
        "2",
        vec![component("Austin", vec![AreaTag::Other])],
    )];
    match select_target_county(&untagged) {
        Err(e) => assert_eq!(e, ApiError::NotFound),
        Ok(_) => panic!("no tagged component must be a not-found condition"),
    }
}

#[test]
fn county_set_is_target_then_neighbors() {
    let map = NeighborMap {
        entries: vec![
            entry("Hays", &["Travis"]),
            entry("Travis", &["Williamson", "Hays"]),
        ],
    };
    let set = build_county_set("Travis".to_string(), &map);
    assert_eq!(set, vec!["Travis", "Williamson", "Hays"]);
}

#[test]
fn county_set_without_table_row_is_target_alone() {
    let map = NeighborMap {
        entries: vec![entry("Hays", &["Travis"])],
    };
    let set = build_county_set("Travis".to_string(), &map);
    assert_eq!(set, vec!["Travis"]);
}

#[test]
fn neighbor_map_parses_from_json_bytes() {
    let map = parse_neighbor_map(b"{\"Travis\": [\"Williamson\", \"Hays\"], \"Hays\": []}")
        .unwrap();
    let ns = map.neighbors_of(&"Travis".to_string()).unwrap();
    assert_eq!(ns, &vec!["Williamson".to_string(), "Hays".to_string()]);
    assert!(map.neighbors_of(&"Bexar".to_string()).is_none());
}

#[test]
fn neighbor_map_rejects_bytes_that_hold_no_table() {
    assert!(parse_neighbor_map(b"").is_none());
    assert!(parse_neighbor_map(b"[1, 2, 3]").is_none());
    assert!(parse_neighbor_map(b"{\"Travis\": [1]}").is_none());
    assert!(parse_neighbor_map(b"{\"Travis\": [\"Hays\"").is_none());
}

#[test]
fn status_codes_match_the_error_taxonomy() {
    assert_eq!(ApiError::NotFound.status_code(), 404);
    assert_eq!(ApiError::UpstreamFailure.status_code(), 500);
}

fn step_to_need_records(neighbor_map: NeighborMap) -> PipelineState {
    let s = pipeline_step(
        PipelineState::Start,
        PipelineEvent::Geocoded(Some(travis_candidates())),
    );
    match &s {
        PipelineState::NeedNeighborMap { target, .. } => assert_eq!(target, "Travis"),
        _ => panic!("expected the pipeline to await the neighbor map"),
    }
    pipeline_step(s, PipelineEvent::MapLoaded(Some(neighbor_map)))
}

#[test]
fn scenario_target_and_neighbors_all_contribute_areas() {
    let map = NeighborMap {
        entries: vec![entry("Travis", &["Williamson", "Hays"])],
    };
    let s = step_to_need_records(map);
    match &s {
        PipelineState::NeedRecords { counties, .. } => {
            assert_eq!(counties, &vec!["Travis", "Williamson", "Hays"]);
        }
        _ => panic!("expected the pipeline to await the fan-out"),
    }
    let records = vec![
        record("1", "Travis County", "POINT (1 2)", "80"),
        record("2", "Williamson County", "LINESTRING (1 2, 3 4)", "40"),
        record("3", "Hays County", "POINT (5 6)", "55.5"),
    ];
    let s = pipeline_step(s, PipelineEvent::RecordsFetched(Ok(records)));
    match s {
        PipelineState::Done { result: Ok(resp) } => {
            assert_eq!(resp.center.lat, "30.27");
            assert_eq!(resp.center.lon, "-97.74");
            assert_eq!(resp.areas.len(), 3);
            let counties: Vec<&str> = resp.areas.iter().map(|a| a.county.as_str()).collect();
            assert_eq!(
                counties,
                vec!["Travis County", "Williamson County", "Hays County"]
            );
            assert_eq!(resp.areas[0].geometry.kind, GeometryKind::Point);
            assert_eq!(resp.areas[1].geometry.kind, GeometryKind::LineString);
            assert_eq!(resp.areas[2].risk_percentile, "55.5");
        }
        _ => panic!("expected a successful response"),
    }
}

#[test]
fn scenario_unmapped_county_queries_target_alone_and_still_succeeds() {
    let map = NeighborMap {
        entries: vec![entry("Bexar", &["Comal"])],
    };
    let s = step_to_need_records(map);
    match &s {
        PipelineState::NeedRecords { counties, .. } => {
            assert_eq!(counties, &vec!["Travis"]);
        }
        _ => panic!("expected the pipeline to await the fan-out"),
    }
    let records = vec![record("1", "Travis County", "POINT (1 2)", "80")];
    let s = pipeline_step(s, PipelineEvent::RecordsFetched(Ok(records)));
    match s {
        PipelineState::Done { result: Ok(resp) } => assert_eq!(resp.areas.len(), 1),
        _ => panic!("expected a successful response"),
    }
}

#[test]
fn scenario_zero_geocoding_results_end_as_not_found() {
    let s = pipeline_step(PipelineState::Start, PipelineEvent::Geocoded(Some(vec![])));
    match s {
        PipelineState::Done { result: Err(e) } => {
            assert_eq!(e, ApiError::NotFound);
            assert_eq!(e.status_code(), 404);
        }
        _ => panic!("expected a not-found end"),
    }
}

#[test]
fn scenario_all_geometries_malformed_ends_as_not_found() {
    let map = NeighborMap {
        entries: vec![entry("Travis", &["Williamson"])],
    };
    let s = step_to_need_records(map);
    let records = vec![
        record("1", "Travis County", "POINT (1", "80"),
        record("2", "Williamson County", "not a geometry", "40"),
    ];
    let s = pipeline_step(s, PipelineEvent::RecordsFetched(Ok(records)));
    match s {
        PipelineState::Done { result: Err(e) } => {
            assert_eq!(e, ApiError::NotFound);
            assert_eq!(e.status_code(), 404);
        }
        _ => panic!("expected a not-found end"),
    }
}

#[test]
fn failed_provider_call_and_failed_fanout_end_as_upstream_failures() {
    let s = pipeline_step(PipelineState::Start, PipelineEvent::Geocoded(None));
    match s {
        PipelineState::Done { result: Err(e) } => assert_eq!(e.status_code(), 500),
        _ => panic!("expected an upstream failure"),
    }

    let map = NeighborMap {
        entries: vec![entry("Travis", &[])],
    };
    let s = step_to_need_records(map);
    let s = pipeline_step(
        s,
        PipelineEvent::RecordsFetched(Err(StoreError {
            message: "throttled".to_string(),
        })),
    );
    match s {
        PipelineState::Done { result: Err(e) } => assert_eq!(e, ApiError::UpstreamFailure),
        _ => panic!("expected an upstream failure"),
    }
}

#[test]
fn failed_neighbor_map_load_ends_as_upstream_failure() {
    let s = pipeline_step(
        PipelineState::Start,
        PipelineEvent::Geocoded(Some(travis_candidates())),
    );
    let s = pipeline_step(s, PipelineEvent::MapLoaded(None));
    match s {
        PipelineState::Done { result: Err(e) } => assert_eq!(e, ApiError::UpstreamFailure),
        _ => panic!("expected an upstream failure"),
    }
}

#[test]
fn malformed_records_are_dropped_not_surfaced() {
    let map = NeighborMap {
        entries: vec![entry("Travis", &[])],
    };
    let s = step_to_need_records(map);
    let records = vec![
        record("good", "Travis County", "POINT (1 2)", "80"),
        record("bad", "Travis County", "POINT (oops)", "40"),
    ];
    let s = pipeline_step(s, PipelineEvent::RecordsFetched(Ok(records)));
    match s {
        PipelineState::Done { result: Ok(resp) } => {
            assert_eq!(resp.areas.len(), 1);
            assert_eq!(resp.areas[0].geo_id, "good");
        }
        _ => panic!("expected a successful response"),
    }
}
