use tantivy::schema::{Schema, TEXT};
use toshi_query::kv::{KVVisitor, KeyValue, KeyValueError};
use toshi_query::query::{
    clause_kind, Aggregates, BoolQuery, ClauseKind, CompiledAggregate, CompiledQuery, CreateQuery, Error, ExactTerm, FuzzyQuery, FuzzyTerm, Occur, PhraseQuery,
    Query, RangeBound, RangeQuery, Ranges, RegexQuery, TermPair,
};
use toshi_query::search::{Search, Settings};

fn schema_with(names: &[&str]) -> Schema {
    let mut b = Schema::builder();
    for n in names {
        b.add_text_field(n, TEXT);
    }
    b.build()
}

fn exact(field: &str, value: &str) -> Query {
    Query::Exact(ExactTerm { term: KeyValue::new(field.to_string(), value.to_string()) })
}

fn missing_field(r: Result<CompiledQuery, Error>) -> String {
    match r {
        Err(Error::FieldNotFound(f)) => f,
        other => panic!("expected a missing field, got {:?}", other),
    }
}

#[test]
fn kv_new_keeps_field_and_value() {
    let kv = KeyValue::new("test_field".to_string(), 1);
    assert_eq!(kv.field, "test_field");
    assert_eq!(kv.value, 1);
}

#[test]
fn kv_serialized_form_is_one_entry() {
    let kv = KeyValue::new("test_field".to_string(), 1);
    let entries = kv.into_entries();
    assert_eq!(entries, vec![("test_field".to_string(), 1)]);
}

#[test]
fn kv_round_trip() {
    let kv = KeyValue::new("test_field".to_string(), 7u64);
    let mut entries = kv.clone().into_entries();
    let first = entries.pop();
    let back = KVVisitor::new().visit_entries(first, None);
    assert_eq!(back, Ok(kv));
}

#[test]
fn kv_rejects_empty_map() {
    let r = KVVisitor::<u64>::new().visit_entries(None, None);
    assert_eq!(r, Err(KeyValueError::NotEnoughValues));
    assert_eq!(KeyValueError::NotEnoughValues.message(), "not enough values");
}

#[test]
fn kv_rejects_second_entry() {
    let r = KVVisitor::new().visit_entries(Some(("a".to_string(), 1u64)), Some(("b".to_string(), 2u64)));
    assert_eq!(r, Err(KeyValueError::TooManyValues));
    assert_eq!(KeyValueError::TooManyValues.message(), "too many values");
}

#[test]
fn default_limit_is_one_hundred() {
    assert_eq!(Settings::default_result_limit(), 100);
}

#[test]
fn empty_request_defaults() {
    let s = Search::with_defaults(None, None, None);
    assert!(matches!(s.query, Some(Query::All)));
    assert!(s.facets.is_none());
    assert_eq!(s.limit, 100);
}

#[test]
fn all_docs_equals_empty_request() {
    let a = Search::all_docs();
    let b = Search::with_defaults(None, None, None);
    assert!(matches!(a.query, Some(Query::All)));
    assert!(matches!(b.query, Some(Query::All)));
    assert!(a.facets.is_none() && b.facets.is_none());
    assert_eq!(a.limit, b.limit);
    assert!(matches!(Search::all(), Some(Query::All)));
}

#[test]
fn zero_limit_is_kept() {
    let s = Search::with_defaults(None, None, Some(0));
    assert_eq!(s.limit, 0);
    let t = Search::new(None, None, 0);
    assert_eq!(t.limit, 0);
}

#[test]
fn exact_term_on_known_field() {
    let schema = schema_with(&["body", "title"]);
    let s = Search::with_defaults(Some(exact("title", "rust")), None, Some(10));
    assert_eq!(s.limit, 10);
    match s.create_query(&schema) {
        Ok(CompiledQuery::Term { term }) => {
            assert_eq!(term.field, schema.get_field("title").unwrap().field_id());
            assert_eq!(term.field, 1);
            assert_eq!(term.text, "rust");
        },
        other => panic!("unexpected {:?}", other),
    }
}

#[test]
fn exact_term_on_unknown_field() {
    let schema = schema_with(&["body"]);
    let s = Search::with_defaults(Some(exact("title", "rust")), None, Some(10));
    let r = s.create_query(&schema);
    match &r {
        Err(e) => assert_eq!(e.message(), "Field: title does not exist"),
        Ok(_) => panic!("expected an error"),
    }
    assert_eq!(missing_field(r), "title");
}

#[test]
fn every_leaf_names_its_unknown_field() {
    let schema = schema_with(&["body"]);
    let leaves = vec![
        exact("a", "x"),
        Query::Fuzzy(FuzzyQuery {
            fuzzy: KeyValue::new("b".to_string(), FuzzyTerm { value: "x".to_string(), distance: 1, transposition: false }),
        }),
        Query::Phrase(PhraseQuery {
            phrase: KeyValue::new("c".to_string(), TermPair { terms: vec![], offsets: None }),
        }),
        Query::Regex(RegexQuery { regex: KeyValue::new("d".to_string(), "x.*".to_string()) }),
        Query::Range(RangeQuery {
            range: KeyValue::new("e".to_string(), Ranges { gte: Some(1), gt: None, lte: None, lt: None }),
        }),
    ];
    let names = ["a", "b", "c", "d", "e"];
    for (q, n) in leaves.iter().zip(names.iter()) {
        assert_eq!(missing_field(q.create_query(&schema)), *n);
    }
}

#[test]
fn boolean_compiles_when_all_children_do() {
    let schema = schema_with(&["title", "body"]);
    let q = Query::Boolean {
        bool: BoolQuery {
            clauses: vec![(Occur::Must, exact("title", "rust")), (Occur::Should, exact("body", "fast")), (Occur::MustNot, Query::All)],
        },
    };
    match q.create_query(&schema) {
        Ok(CompiledQuery::Boolean { clauses }) => {
            assert_eq!(clauses.len(), 3);
            assert_eq!(clauses[0].0, Occur::Must);
            assert_eq!(clauses[1].0, Occur::Should);
            assert_eq!(clauses[2].0, Occur::MustNot);
            match &clauses[1].1 {
                CompiledQuery::Term { term } => {
                    assert_eq!(term.field, 1);
                    assert_eq!(term.text, "fast");
                },
                other => panic!("unexpected {:?}", other),
            }
            assert!(matches!(clauses[2].1, CompiledQuery::All));
        },
        other => panic!("unexpected {:?}", other),
    }
}

#[test]
fn boolean_surfaces_first_failing_child() {
    let schema = schema_with(&["title"]);
    let q = Query::Boolean {
        bool: BoolQuery {
            clauses: vec![
                (Occur::Must, exact("title", "rust")),
                (Occur::Should, exact("first", "x")),
                (Occur::Should, exact("second", "y")),
            ],
        },
    };
    assert_eq!(missing_field(q.create_query(&schema)), "first");
}

#[test]
fn nested_boolean_fails_from_inside() {
    let schema = schema_with(&["title"]);
    let inner = Query::Boolean { bool: BoolQuery { clauses: vec![(Occur::Must, exact("gone", "x"))] } };
    let q = Query::Boolean { bool: BoolQuery { clauses: vec![(Occur::Must, exact("title", "a")), (Occur::Should, inner)] } };
    assert_eq!(missing_field(q.create_query(&schema)), "gone");
}

#[test]
fn empty_boolean_compiles() {
    let schema = schema_with(&[]);
    let q = Query::Boolean { bool: BoolQuery { clauses: vec![] } };
    assert!(matches!(q.create_query(&schema), Ok(CompiledQuery::Boolean { clauses }) if clauses.is_empty()));
}

#[test]
fn phrase_positions() {
    let schema = schema_with(&["body"]);
    let terms = vec!["quick".to_string(), "fox".to_string()];
    let q = Query::Phrase(PhraseQuery { phrase: KeyValue::new("body".to_string(), TermPair { terms: terms.clone(), offsets: None }) });
    match q.create_query(&schema) {
        Ok(CompiledQuery::Phrase { terms }) => {
            assert_eq!(terms.len(), 2);
            assert_eq!(terms[0].0, 0);
            assert_eq!(terms[1].0, 1);
            assert_eq!(terms[1].1.text, "fox");
        },
        other => panic!("unexpected {:?}", other),
    }
    let q = Query::Phrase(PhraseQuery { phrase: KeyValue::new("body".to_string(), TermPair { terms, offsets: Some(vec![3, 5]) }) });
    match q.create_query(&schema) {
        Ok(CompiledQuery::Phrase { terms }) => {
            assert_eq!(terms[0].0, 3);
            assert_eq!(terms[1].0, 5);
            assert_eq!(terms[0].1.text, "quick");
        },
        other => panic!("unexpected {:?}", other),
    }
}

#[test]
fn phrase_errors() {
    let schema = schema_with(&["body"]);
    let short = Query::Phrase(PhraseQuery {
        phrase: KeyValue::new("body".to_string(), TermPair { terms: vec!["one".to_string()], offsets: None }),
    });
    let r = short.create_query(&schema);
    assert!(matches!(r, Err(Error::PhraseTooShort)));
    let bad = Query::Phrase(PhraseQuery {
        phrase: KeyValue::new("body".to_string(), TermPair { terms: vec!["a".to_string(), "b".to_string()], offsets: Some(vec![0]) }),
    });
    match bad.create_query(&schema) {
        Err(e) => {
            assert!(matches!(e, Error::OffsetsMismatch));
            assert_eq!(e.message(), "Phrase Query must have as many offsets as terms");
        },
        Ok(_) => panic!("expected an error"),
    }
}

#[test]
fn range_bounds() {
    let schema = schema_with(&["x", "year"]);
    let q = Query::Range(RangeQuery {
        range: KeyValue::new("year".to_string(), Ranges { gte: Some(2000), gt: None, lte: None, lt: Some(2010) }),
    });
    match q.create_query(&schema) {
        Ok(CompiledQuery::Range { field, lower, upper }) => {
            assert_eq!(field, 1);
            assert_eq!(lower, RangeBound::Included(2000));
            assert_eq!(upper, RangeBound::Excluded(2010));
        },
        other => panic!("unexpected {:?}", other),
    }
    let r = Ranges { gte: Some(1), gt: Some(2), lte: None, lt: None };
    assert_eq!(r.bounds(), (RangeBound::Excluded(2), RangeBound::Unbounded));
}

#[test]
fn fuzzy_and_regex_carry_their_values() {
    let schema = schema_with(&["title"]);
    let f = Query::Fuzzy(FuzzyQuery {
        fuzzy: KeyValue::new("title".to_string(), FuzzyTerm { value: "rsut".to_string(), distance: 2, transposition: true }),
    });
    match f.create_query(&schema) {
        Ok(CompiledQuery::Fuzzy { term, distance, transposition }) => {
            assert_eq!(term.field, 0);
            assert_eq!(term.text, "rsut");
            assert_eq!(distance, 2);
            assert!(transposition);
        },
        other => panic!("unexpected {:?}", other),
    }
    let r = Query::Regex(RegexQuery { regex: KeyValue::new("title".to_string(), "ru.*".to_string()) });
    match r.create_query(&schema) {
        Ok(CompiledQuery::Regex { field, pattern }) => {
            assert_eq!(field, 0);
            assert_eq!(pattern, "ru.*");
        },
        other => panic!("unexpected {:?}", other),
    }
}

#[test]
fn raw_and_all_need_no_field() {
    let schema = schema_with(&[]);
    let q = Query::Raw { raw: "title:rust".to_string() };
    assert!(matches!(q.create_query(&schema), Ok(CompiledQuery::Raw { query }) if query == "title:rust"));
    assert!(matches!(Query::All.create_query(&schema), Ok(CompiledQuery::All)));
    let s = Search::new(None, None, 5);
    assert!(matches!(s.create_query(&schema), Ok(CompiledQuery::All)));
}

#[test]
fn sum_aggregate() {
    let schema = schema_with(&["a", "price"]);
    let a = Aggregates::SumAgg { field: "price".to_string() };
    assert_eq!(a.create_agg(&schema).ok(), Some(CompiledAggregate::Sum { field: 1 }));
    let b = Aggregates::SumAgg { field: "cost".to_string() };
    match b.create_agg(&schema) {
        Err(Error::FieldNotFound(f)) => assert_eq!(f, "cost"),
        other => panic!("unexpected {:?}", other),
    }
}

#[test]
fn keys_select_clause_kinds() {
    assert_eq!(clause_kind("bool"), Some(ClauseKind::Boolean));
    assert_eq!(clause_kind("fuzzy"), Some(ClauseKind::Fuzzy));
    assert_eq!(clause_kind("exact_term"), Some(ClauseKind::Exact));
    assert_eq!(clause_kind("phrase"), Some(ClauseKind::Phrase));
    assert_eq!(clause_kind("regex"), Some(ClauseKind::Regex));
    assert_eq!(clause_kind("range"), Some(ClauseKind::Range));
    assert_eq!(clause_kind("raw"), Some(ClauseKind::Raw));
    assert_eq!(clause_kind("all"), Some(ClauseKind::All));
    assert_eq!(clause_kind("boolean"), None);
    assert_eq!(clause_kind(""), None);
    assert_eq!(clause_kind("term"), None);
}
