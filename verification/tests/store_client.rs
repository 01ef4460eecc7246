use county_risk::store::{
    aggregate_fanout, county_key, extract_record, fanout_keys, pagination_next, pagination_start,
    pagination_step, Page, PageRequest, Pagination, RawField, RawItem, RawValue, RegionRecord,
    StoreError,
};

fn record(geo_id: &str, county: &str, geometry: &str, pct: &str) -> RegionRecord {
    RegionRecord {
        geo_id: geo_id.to_string(),
        county: county.to_string(),
        geometry: geometry.to_string(),
        risk_percentile: pct.to_string(),
    }
}

#[test]
fn county_key_appends_suffix() {
    assert_eq!(county_key(&"Travis".to_string()), "Travis County");
}

#[test]
fn fanout_issues_one_query_per_county() {
    let counties = vec![
        "Travis".to_string(),
        "Williamson".to_string(),
        "Hays".to_string(),
    ];
    let keys = fanout_keys(&counties);
    assert_eq!(keys.len(), 3);
    assert_eq!(keys[0], "Travis County");
    assert_eq!(keys[1], "Williamson County");
    assert_eq!(keys[2], "Hays County");
}

#[test]
fn fanout_aggregates_all_successes_in_order() {
    let outcomes = vec![
        Ok(vec![record("a", "Travis", "POINT (1 2)", "10")]),
        Ok(vec![]),
        Ok(vec![
            record("b", "Hays", "POINT (3 4)", "20"),
            record("c", "Hays", "POINT (5 6)", "30"),
        ]),
    ];
    let all = aggregate_fanout(outcomes).unwrap();
    assert_eq!(all.len(), 3);
    assert_eq!(all[0].geo_id, "a");
    assert_eq!(all[1].geo_id, "b");
    assert_eq!(all[2].geo_id, "c");
}

#[test]
fn fanout_fails_whole_call_on_one_failure() {
    let outcomes: Vec<Result<Vec<RegionRecord>, StoreError>> = vec![
        Ok(vec![record("a", "Travis", "POINT (1 2)", "10")]),
        Err(StoreError {
            message: "throttled".to_string(),
        }),
        Ok(vec![record("b", "Hays", "POINT (3 4)", "20")]),
    ];
    match aggregate_fanout(outcomes) {
        Ok(_) => panic!("a failing sub-query must fail the aggregate"),
        Err(e) => assert_eq!(e.message, "throttled"),
    }
}

#[test]
fn empty_county_set_aggregates_to_no_records() {
    let all = aggregate_fanout(vec![]).unwrap();
    assert!(all.is_empty());
}

/// A simulated store holding a fixed page sequence for one county.
struct PagedStore {
    pages: Vec<Page>,
    requests_served: usize,
}

impl PagedStore {
    fn serve(&mut self, req: &PageRequest) -> Page {
        assert_eq!(req.county_key, "Travis County");
        let expected_token = if self.requests_served == 0 {
            None
        } else {
            Some(format!("token-{}", self.requests_served))
        };
        assert_eq!(req.start_token, expected_token);
        let page = &self.pages[self.requests_served];
        self.requests_served += 1;
        Page {
            items: page
                .items
                .iter()
                .map(|r| record(&r.geo_id, &r.county, &r.geometry, &r.risk_percentile))
                .collect(),
            next_token: page.next_token.clone(),
        }
    }
}

#[test]
fn pagination_issues_three_requests_for_three_pages() {
    let mut store = PagedStore {
        pages: vec![
            Page {
                items: vec![record("a", "Travis", "POINT (1 2)", "10")],
                next_token: Some("token-1".to_string()),
            },
            Page {
                items: vec![
                    record("b", "Travis", "POINT (3 4)", "20"),
                    record("c", "Travis", "POINT (5 6)", "30"),
                ],
                next_token: Some("token-2".to_string()),
            },
            Page {
                items: vec![record("d", "Travis", "POINT (7 8)", "40")],
                next_token: None,
            },
        ],
        requests_served: 0,
    };
    let mut state: Pagination = pagination_start(county_key(&"Travis".to_string()));
    while let Some(req) = pagination_next(&state) {
        let page = store.serve(&req);
        pagination_step(&mut state, page);
    }
    assert_eq!(store.requests_served, 3);
    assert_eq!(state.requests_issued, 3);
    let ids: Vec<&str> = state.collected.iter().map(|r| r.geo_id.as_str()).collect();
    assert_eq!(ids, vec!["a", "b", "c", "d"]);
}

#[test]
fn pagination_of_empty_county_finishes_after_one_request() {
    let mut state = pagination_start(county_key(&"Loving".to_string()));
    let req = pagination_next(&state).unwrap();
    assert_eq!(req.county_key, "Loving County");
    assert_eq!(req.start_token, None);
    pagination_step(
        &mut state,
        Page {
            items: vec![],
            next_token: None,
        },
    );
    assert!(pagination_next(&state).is_none());
    assert_eq!(state.requests_issued, 1);
    assert!(state.collected.is_empty());
}

fn text_field(name: &str, value: &str) -> RawField {
    RawField {
        name: name.to_string(),
        value: RawValue::Text(value.to_string()),
    }
}

#[test]
fn extract_record_reads_all_fields() {
    let item = RawItem {
        fields: vec![
            text_field("GEOID", "48453001"),
            text_field("County", "Travis County"),
            text_field("Geometry", "POINT (1 2)"),
            RawField {
                name: "WeightedCrimePercentile".to_string(),
                value: RawValue::Number("87.5".to_string()),
            },
        ],
    };
    let r = extract_record(&item).unwrap();
    assert_eq!(r.geo_id, "48453001");
    assert_eq!(r.county, "Travis County");
    assert_eq!(r.geometry, "POINT (1 2)");
    assert_eq!(r.risk_percentile, "87.5");
}

#[test]
fn extract_record_skips_item_missing_a_text_field() {
    let item = RawItem {
        fields: vec![
            text_field("GEOID", "48453001"),
            text_field("County", "Travis County"),
        ],
    };
    assert!(extract_record(&item).is_none());
}

#[test]
fn extract_record_skips_item_with_wrongly_typed_field() {
    let item = RawItem {
        fields: vec![
            RawField {
                name: "GEOID".to_string(),
                value: RawValue::Number("48453001".to_string()),
            },
            text_field("County", "Travis County"),
            text_field("Geometry", "POINT (1 2)"),
        ],
    };
    assert!(extract_record(&item).is_none());
}

#[test]
fn extract_record_skips_item_with_missing_or_malformed_percentile() {
    let without = RawItem {
        fields: vec![
            text_field("GEOID", "1"),
            text_field("County", "Travis County"),
            text_field("Geometry", "POINT (1 2)"),
        ],
    };
    assert!(extract_record(&without).is_none());

    let malformed = RawItem {
        fields: vec![
            text_field("GEOID", "1"),
            text_field("County", "Travis County"),
            text_field("Geometry", "POINT (1 2)"),
            RawField {
                name: "WeightedCrimePercentile".to_string(),
                value: RawValue::Number("not a number".to_string()),
            },
        ],
    };
    assert!(extract_record(&malformed).is_none());

    let wrongly_typed = RawItem {
        fields: vec![
            text_field("GEOID", "1"),
            text_field("County", "Travis County"),
            text_field("Geometry", "POINT (1 2)"),
            text_field("WeightedCrimePercentile", "87.5"),
        ],
    };
    assert!(extract_record(&wrongly_typed).is_none());
}

#[test]
fn extract_record_keeps_a_percentile_in_exponent_notation() {
    let item = RawItem {
        fields: vec![
            text_field("GEOID", "1"),
            text_field("County", "Travis County"),
            text_field("Geometry", "POINT (1 2)"),
            RawField {
                name: "WeightedCrimePercentile".to_string(),
                value: RawValue::Number("8.75E1".to_string()),
            },
        ],
    };
    assert_eq!(extract_record(&item).unwrap().risk_percentile, "8.75E1");
}
