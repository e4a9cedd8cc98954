use release_query::clause::{Clause, Group, Leaf, Weight};
use release_query::field::{FieldSpec, InvalidFieldSpec};
use release_query::router::{credit_clause_of, nested_clause_of, route, FilterPair, Routed};
use release_query::text::{chars_of, has_prefix, same_text, stem_len};

fn pair(field: &str, value: &str) -> FilterPair {
    FilterPair { field: field.to_string(), value: value.to_string() }
}

fn credit(path: &str, value: &str) -> Clause {
    Clause::Nested {
        path: path.to_string(),
        any_of: vec![
            Leaf::Match {
                field: format!("{}.name", path),
                query: value.to_string(),
                boost: Weight { tenths: 0 },
            },
            Leaf::Match {
                field: format!("{}.anv", path),
                query: value.to_string(),
                boost: Weight { tenths: 0 },
            },
        ],
        overall_boost: None,
        score_max: false,
    }
}

fn nested(path: &str, property: &str, value: &str, tenths: u32) -> Clause {
    Clause::Nested {
        path: path.to_string(),
        any_of: vec![
            Leaf::Fuzzy {
                field: property.to_string(),
                value: value.to_string(),
                fuzziness: 2,
                boost: Weight { tenths: 5 },
            },
            Leaf::Match {
                field: property.to_string(),
                query: value.to_string(),
                boost: Weight { tenths: 5 },
            },
            Leaf::Wildcard {
                field: property.to_string(),
                pattern: format!("*{}*", value),
                case_insensitive: true,
                boost: Weight { tenths: 100 },
            },
            Leaf::Prefix {
                field: property.to_string(),
                value: value.to_string(),
                case_insensitive: true,
                boost: Weight { tenths: 150 },
            },
        ],
        overall_boost: Some(Weight { tenths }),
        score_max: true,
    }
}

#[test]
fn parse_tells_flat_from_nested() {
    assert_eq!(FieldSpec::parse("country"), Ok(FieldSpec::Flat { name: "country".to_string() }));
    assert_eq!(
        FieldSpec::parse("formats.name"),
        Ok(FieldSpec::Flat { name: "formats.name".to_string() })
    );
    assert_eq!(
        FieldSpec::parse("nested:labels.catno"),
        Ok(FieldSpec::Nested { path: "labels".to_string(), property: "labels.catno".to_string() })
    );
    assert_eq!(
        FieldSpec::parse("nested:tracklist.artists.name"),
        Ok(FieldSpec::Nested {
            path: "tracklist".to_string(),
            property: "tracklist.artists.name".to_string()
        })
    );
}

#[test]
fn parse_takes_the_marker_at_the_start_only() {
    assert_eq!(
        FieldSpec::parse("xnested:labels.name"),
        Ok(FieldSpec::Flat { name: "xnested:labels.name".to_string() })
    );
    assert_eq!(FieldSpec::parse("nested"), Ok(FieldSpec::Flat { name: "nested".to_string() }));
    assert_eq!(FieldSpec::parse(""), Ok(FieldSpec::Flat { name: String::new() }));
}

#[test]
fn parse_rejects_a_nested_spec_without_a_dot() {
    assert_eq!(
        FieldSpec::parse("nested:noDot"),
        Err(InvalidFieldSpec { field: "nested:noDot".to_string() })
    );
    assert_eq!(FieldSpec::parse("nested:"), Err(InvalidFieldSpec { field: "nested:".to_string() }));
}

#[test]
fn parse_counts_characters_not_bytes() {
    assert_eq!(
        FieldSpec::parse("nested:étiquettes.nom"),
        Ok(FieldSpec::Nested {
            path: "étiquettes".to_string(),
            property: "étiquettes.nom".to_string()
        })
    );
    assert_eq!(
        FieldSpec::parse("nested:.name"),
        Ok(FieldSpec::Nested { path: String::new(), property: ".name".to_string() })
    );
}

#[test]
fn text_helpers_agree_with_std() {
    assert_eq!(chars_of("a.é"), vec!['a', '.', 'é']);
    assert!(has_prefix(&chars_of("nested:x"), &chars_of("nested:")));
    assert!(has_prefix(&chars_of("nested:"), &chars_of("nested:")));
    assert!(!has_prefix(&chars_of("neste"), &chars_of("nested:")));
    assert!(!has_prefix(&chars_of("nestee:x"), &chars_of("nested:")));
    assert!(has_prefix(&chars_of("abc"), &chars_of("")));
    assert!(same_text("title", "title"));
    assert!(!same_text("title", "titles"));
    assert!(!same_text("titles", "title"));
    assert!(!same_text("title", "tisle"));
    assert_eq!(stem_len(&chars_of("nested:labels.catno"), 7), 6);
    assert_eq!(stem_len(&chars_of("nested:noDot"), 7), 5);
    assert_eq!(stem_len(&chars_of("a.b.c"), 2), 1);
    assert_eq!(stem_len(&chars_of("abc"), 3), 0);
}

#[test]
fn artist_field_routes_to_both_credit_paths() {
    let routed = route(&pair("nested:artists.name", "Miles")).unwrap();
    assert_eq!(routed.group, Group::Should);
    assert_eq!(routed.clauses, vec![credit("artists", "Miles"), credit("extraartists", "Miles")]);
    let paths: Vec<&str> = routed
        .clauses
        .iter()
        .map(|clause| match clause {
            Clause::Nested { path, .. } => path.as_str(),
            _ => panic!("an artist pair gives nested clauses only"),
        })
        .collect();
    assert_eq!(paths, vec!["artists", "extraartists"]);
}

#[test]
fn artist_routing_looks_at_the_path_only() {
    let by_variation = route(&pair("nested:artists.anv", "Miles")).unwrap();
    assert_eq!(
        by_variation,
        Routed {
            group: Group::Should,
            clauses: vec![credit("artists", "Miles"), credit("extraartists", "Miles")]
        }
    );
    let secondary = route(&pair("nested:extraartists.name", "Teo")).unwrap();
    assert_eq!(
        secondary,
        Routed {
            group: Group::Must,
            clauses: vec![nested("extraartists", "extraartists.name", "Teo", 10)]
        }
    );
    let longer = route(&pair("nested:artists_sort.name", "Miles")).unwrap();
    assert_eq!(longer.group, Group::Must);
}

#[test]
fn catalog_number_weighs_more_than_other_nested_properties() {
    let catno = route(&pair("nested:labels.catno", "ABC-1")).unwrap();
    assert_eq!(
        catno,
        Routed { group: Group::Must, clauses: vec![nested("labels", "labels.catno", "ABC-1", 150)] }
    );
    let name = route(&pair("nested:labels.name", "Blue Note")).unwrap();
    assert_eq!(
        name,
        Routed {
            group: Group::Must,
            clauses: vec![nested("labels", "labels.name", "Blue Note", 10)]
        }
    );
    for value in ["", "x", "ABC-1"] {
        match &route(&pair("nested:labels.name", value)).unwrap().clauses[0] {
            Clause::Nested { overall_boost, score_max, .. } => {
                assert_eq!(*overall_boost, Some(Weight { tenths: 10 }));
                assert!(*score_max);
            }
            other => panic!("expected a nested clause, got {:?}", other),
        }
    }
}

#[test]
fn nested_clause_holds_the_four_matches() {
    let clause = nested_clause_of("labels", "labels.name", "Blue");
    assert_eq!(clause, nested("labels", "labels.name", "Blue", 10));
    match clause {
        Clause::Nested { any_of, .. } => {
            assert_eq!(any_of.len(), 4);
            assert_eq!(
                any_of[2],
                Leaf::Wildcard {
                    field: "labels.name".to_string(),
                    pattern: "*Blue*".to_string(),
                    case_insensitive: true,
                    boost: Weight { tenths: 100 },
                }
            );
        }
        other => panic!("expected a nested clause, got {:?}", other),
    }
    assert_eq!(credit_clause_of("extraartists", "Teo"), credit("extraartists", "Teo"));
}

#[test]
fn title_routes_to_a_required_full_text_match() {
    let routed = route(&pair("title", "kind of bl")).unwrap();
    assert_eq!(
        routed,
        Routed {
            group: Group::Must,
            clauses: vec![Clause::MatchBoolPrefix {
                field: "title".to_string(),
                query: "kind of bl".to_string(),
                boost: Weight { tenths: 100 },
            }]
        }
    );
}

#[test]
fn categorical_field_routes_to_a_term_filter() {
    let routed = route(&pair("country", "US")).unwrap();
    assert_eq!(
        routed,
        Routed {
            group: Group::Filter,
            clauses: vec![Clause::Term { field: "country".to_string(), value: "US".to_string() }]
        }
    );
    let dotted = route(&pair("formats.name", "Vinyl")).unwrap();
    assert_eq!(dotted.group, Group::Filter);
    let titles = route(&pair("titles", "x")).unwrap();
    assert_eq!(titles.group, Group::Filter);
}

#[test]
fn malformed_nested_spec_is_an_error() {
    assert_eq!(
        route(&pair("nested:noDot", "x")),
        Err(InvalidFieldSpec { field: "nested:noDot".to_string() })
    );
    assert_eq!(
        route(&pair("nested:artists", "Miles")),
        Err(InvalidFieldSpec { field: "nested:artists".to_string() })
    );
}

#[test]
fn weight_is_written_with_one_decimal() {
    assert_eq!(Weight { tenths: 5 }.to_text(), "0.5");
    assert_eq!(Weight { tenths: 10 }.to_text(), "1.0");
    assert_eq!(Weight { tenths: 100 }.to_text(), "10.0");
    assert_eq!(Weight { tenths: 150 }.to_text(), "15.0");
    assert_eq!(Weight { tenths: 0 }.to_text(), "0.0");
    assert_eq!(Weight { tenths: 1234 }.to_text(), "123.4");
    assert_eq!(Weight { tenths: u32::MAX }.to_text(), "429496729.5");
}

#[test]
fn routed_weights_read_as_in_the_query_language() {
    let texts = |field: &str| -> Vec<String> {
        match &route(&pair(field, "x")).unwrap().clauses[0] {
            Clause::Nested { any_of, overall_boost, .. } => {
                let mut texts: Vec<String> = any_of
                    .iter()
                    .map(|leaf| match leaf {
                        Leaf::Match { boost, .. }
                        | Leaf::Fuzzy { boost, .. }
                        | Leaf::Wildcard { boost, .. }
                        | Leaf::Prefix { boost, .. } => boost.to_text(),
                    })
                    .collect();
                texts.extend(overall_boost.iter().map(|boost| boost.to_text()));
                texts
            }
            other => panic!("expected a nested clause, got {:?}", other),
        }
    };
    assert_eq!(texts("nested:labels.catno"), vec!["0.5", "0.5", "10.0", "15.0", "15.0"]);
    assert_eq!(texts("nested:labels.name"), vec!["0.5", "0.5", "10.0", "15.0", "1.0"]);
    assert_eq!(texts("nested:artists.name"), vec!["0.0", "0.0"]);
}
