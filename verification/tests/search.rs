use grafbase_local::cursor::{decode, encode, from_hex, to_hex};
use grafbase_local::errors::SearchError;
use grafbase_local::operation::Scalar;
use grafbase_local::pagination::{is_ordered, paginate, Cursor, Entry, Hit, Pagination};
use grafbase_local::plan::{find_field, plan, text_terms, value_fits, Term};
use grafbase_local::query::{sort_of, Filter, Query, Sort, TextMatch};
use grafbase_local::schema::{open_index, FieldEntry, FieldType, IndexedField, Schema};
use grafbase_local::search::{answer, respond, resume_position, PageRequest, QueryExecutionRequest};
use grafbase_local::tokenizer::tokenized_field_name;

fn entry(score: u32, ordinal: u64, id: &str) -> Entry {
    Entry { score, ordinal, id: id.to_string() }
}

fn ranking() -> Vec<Entry> {
    vec![
        entry(900, 4, "d"),
        entry(700, 1, "a"),
        entry(700, 2, "b"),
        entry(700, 7, "g"),
        entry(300, 3, "c"),
        entry(300, 5, "e"),
        entry(100, 6, "f"),
    ]
}

fn ids(hits: &[Hit]) -> Vec<String> {
    hits.iter().map(|hit| hit.id.clone()).collect()
}

fn title_query(text: &str) -> Query {
    Query {
        filters: Vec::new(),
        matches: vec![TextMatch { field: "title".to_string(), text: text.to_string() }],
        sort: Sort::Relevance,
    }
}

fn request(query: Query, limit: usize, cursor: Option<String>) -> QueryExecutionRequest {
    QueryExecutionRequest { entity_type: "Todo".to_string(), query, pagination: PageRequest { limit, cursor } }
}

#[test]
fn ranking_order_is_checked() {
    assert!(is_ordered(&ranking()));
    assert!(is_ordered(&Vec::new()));
    assert!(!is_ordered(&vec![entry(1, 1, "a"), entry(2, 1, "b")]));
    assert!(!is_ordered(&vec![entry(5, 2, "a"), entry(5, 1, "b")]));
    assert!(!is_ordered(&vec![entry(5, 2, "a"), entry(5, 2, "b")]));
}

#[test]
fn first_page_holds_the_best_and_names_a_cursor() {
    let page = paginate(&ranking(), 42, Pagination { limit: 3, cursor: None }).unwrap();
    assert_eq!(
        page.hits,
        vec![
            Hit { id: "d".to_string(), score: 900 },
            Hit { id: "a".to_string(), score: 700 },
            Hit { id: "b".to_string(), score: 700 },
        ]
    );
    assert_eq!(page.next_cursor, Some(Cursor { score: 700, ordinal: 2, fingerprint: 42 }));
}

#[test]
fn two_pages_equal_one_page_of_twice_the_limit() {
    let entries = ranking();
    let first = paginate(&entries, 42, Pagination { limit: 3, cursor: None }).unwrap();
    let second = paginate(&entries, 42, Pagination { limit: 3, cursor: first.next_cursor }).unwrap();
    let both = paginate(&entries, 42, Pagination { limit: 6, cursor: None }).unwrap();
    let mut joined = ids(&first.hits);
    joined.extend(ids(&second.hits));
    assert_eq!(joined, vec!["d", "a", "b", "g", "c", "e"]);
    assert_eq!(joined, ids(&both.hits));
    assert_eq!(second.next_cursor, both.next_cursor);
    assert_eq!(second.next_cursor, Some(Cursor { score: 300, ordinal: 5, fingerprint: 42 }));
}

#[test]
fn last_page_names_no_cursor() {
    let entries = ranking();
    let resume = Cursor { score: 300, ordinal: 5, fingerprint: 42 };
    let page = paginate(&entries, 42, Pagination { limit: 3, cursor: Some(resume) }).unwrap();
    assert_eq!(ids(&page.hits), vec!["f"]);
    assert_eq!(page.next_cursor, None);
    let exact = paginate(&entries, 42, Pagination { limit: 7, cursor: None }).unwrap();
    assert_eq!(exact.hits.len(), 7);
    assert_eq!(exact.next_cursor, None);
    let nothing = paginate(&entries, 42, Pagination { limit: 0, cursor: None }).unwrap();
    assert!(nothing.hits.is_empty());
    assert_eq!(nothing.next_cursor, None);
    let empty = paginate(&Vec::new(), 42, Pagination { limit: 5, cursor: None }).unwrap();
    assert!(empty.hits.is_empty());
    assert_eq!(empty.next_cursor, None);
}

#[test]
fn cursor_of_another_query_is_refused() {
    let entries = ranking();
    let first = paginate(&entries, 42, Pagination { limit: 2, cursor: None }).unwrap();
    let refused = paginate(&entries, 43, Pagination { limit: 2, cursor: first.next_cursor });
    assert_eq!(refused, Err(SearchError::CursorMismatch));
}

#[test]
fn cursor_is_written_as_forty_hex_digits() {
    let cursor = Cursor { score: 1, ordinal: 2, fingerprint: 3 };
    assert_eq!(encode(&cursor), "0100000002000000000000000300000000000000");
    let wide = Cursor { score: 0x3f80_0000, ordinal: 0x0102_0304_0506_0708, fingerprint: u64::MAX };
    assert_eq!(encode(&wide), "0000803f0807060504030201ffffffffffffffff");
    assert_eq!(decode(&encode(&wide)), Some(wide));
    assert_eq!(decode(&encode(&cursor)), Some(cursor));
}

#[test]
fn text_that_is_no_token_is_refused() {
    assert_eq!(decode(""), None);
    assert_eq!(decode("01"), None);
    assert_eq!(decode("0100000002000000000000000300000000000000ff"), None);
    assert_eq!(decode("0100000002000000000000000300000000000G00"), None);
    assert_eq!(decode("0100000002000000000000000300000000000A00"), None);
    assert_eq!(decode("010000000200000000000000030000000000000"), None);
    assert_eq!(decode("é100000002000000000000000300000000000000"), None);
}

#[test]
fn hex_reads_back_what_was_written() {
    assert_eq!(to_hex(&vec![0x00, 0x0f, 0xa5, 0xff]), "000fa5ff");
    assert_eq!(from_hex("000fa5ff"), Some(vec![0x00, 0x0f, 0xa5, 0xff]));
    assert_eq!(from_hex(""), Some(Vec::new()));
    assert_eq!(from_hex("abc"), None);
    assert_eq!(from_hex("zz"), None);
}

#[test]
fn fingerprint_of_the_empty_query_is_the_seed_mixed_with_its_sort() {
    let empty = Query { filters: Vec::new(), matches: Vec::new(), sort: Sort::Relevance };
    assert_eq!(empty.fingerprint(), (0xcbf29ce484222325u64 ^ 0x120).wrapping_mul(0x100000001b3));
    assert_eq!(empty.fingerprint(), 0xaf629d4c85ffce7f);
}

#[test]
fn fingerprint_follows_the_mixing_rule() {
    let mix = |state: u64, word: u64| (state ^ word).wrapping_mul(0x100000001b3);
    let text = |mut state: u64, text: &str| {
        for byte in text.bytes() {
            state = mix(state, byte as u64);
        }
        mix(state, 0xff)
    };
    let query = Query {
        filters: vec![Filter { field: "done".to_string(), value: Scalar::Boolean(true) }],
        matches: vec![TextMatch { field: "title".to_string(), text: "milk".to_string() }],
        sort: Sort::Relevance,
    };
    let mut expected = 0xcbf29ce484222325u64;
    expected = text(mix(expected, 0x100), "done");
    expected = mix(mix(expected, 0x111), 1);
    expected = text(text(mix(expected, 0x101), "title"), "milk");
    expected = mix(expected, 0x120);
    assert_eq!(query.fingerprint(), expected);
}

#[test]
fn different_queries_have_different_fingerprints() {
    let milk = title_query("milk");
    let eggs = title_query("eggs");
    assert_ne!(milk.fingerprint(), eggs.fingerprint());
    assert_eq!(milk.fingerprint(), title_query("milk").fingerprint());
    let split = Query {
        filters: Vec::new(),
        matches: vec![TextMatch { field: "titlem".to_string(), text: "ilk".to_string() }],
        sort: Sort::Relevance,
    };
    assert_ne!(milk.fingerprint(), split.fingerprint());
    let integer = Query {
        filters: vec![Filter { field: "n".to_string(), value: Scalar::Integer(-1) }],
        matches: Vec::new(),
        sort: Sort::Relevance,
    };
    let real = Query {
        filters: vec![Filter { field: "n".to_string(), value: Scalar::Real(u64::MAX) }],
        matches: Vec::new(),
        sort: Sort::Relevance,
    };
    assert_ne!(integer.fingerprint(), real.fingerprint());
}

#[test]
fn following_the_token_continues_the_ranking() {
    let entries = ranking();
    let first = respond(&entries, &request(title_query("milk"), 2, None)).unwrap();
    assert_eq!(ids(&first.hits), vec!["d", "a"]);
    assert_eq!(first.info.total_hits, 7);
    let token = first.next_cursor.clone().unwrap();
    assert_eq!(token.len(), 40);
    let second = respond(&entries, &request(title_query("milk"), 2, Some(token))).unwrap();
    assert_eq!(ids(&second.hits), vec!["b", "g"]);
    let both = respond(&entries, &request(title_query("milk"), 4, None)).unwrap();
    assert_eq!(ids(&both.hits), vec!["d", "a", "b", "g"]);
    assert_eq!(second.next_cursor, both.next_cursor);
}

#[test]
fn token_of_another_query_is_refused() {
    let entries = ranking();
    let first = respond(&entries, &request(title_query("milk"), 2, None)).unwrap();
    let refused = respond(&entries, &request(title_query("eggs"), 2, first.next_cursor));
    assert_eq!(refused, Err(SearchError::CursorMismatch));
}

#[test]
fn malformed_token_is_refused() {
    let entries = ranking();
    let broken = request(title_query("milk"), 2, Some("not-a-cursor".to_string()));
    assert_eq!(resume_position(&broken), Err(SearchError::MalformedCursor));
    assert_eq!(respond(&entries, &broken), Err(SearchError::MalformedCursor));
    assert_eq!(resume_position(&request(title_query("milk"), 2, None)), Ok(None));
}

fn todo_schema() -> Schema {
    Schema {
        fields: vec![
            FieldEntry { name: "title".to_string(), ty: FieldType::Text },
            FieldEntry { name: "views".to_string(), ty: FieldType::Int },
            FieldEntry { name: "body".to_string(), ty: FieldType::Text },
            FieldEntry { name: "done".to_string(), ty: FieldType::Boolean },
        ],
    }
}

#[test]
fn text_fields_get_a_token_field() {
    let layout = open_index(&todo_schema()).unwrap();
    assert_eq!(
        layout,
        vec![
            IndexedField { name: "title".to_string(), doc_key: 1, tokenized_doc_key: Some(2), ty: FieldType::Text },
            IndexedField { name: "views".to_string(), doc_key: 3, tokenized_doc_key: None, ty: FieldType::Int },
            IndexedField { name: "body".to_string(), doc_key: 4, tokenized_doc_key: Some(5), ty: FieldType::Text },
            IndexedField { name: "done".to_string(), doc_key: 6, tokenized_doc_key: None, ty: FieldType::Boolean },
        ]
    );
    assert_eq!(open_index(&Schema { fields: Vec::new() }), Ok(Vec::new()));
    assert!(FieldType::Email.is_text());
    assert!(!FieldType::Timestamp.is_text());
    assert_eq!(tokenized_field_name("title"), "title#tokenized");
}

#[test]
fn full_text_is_looked_up_by_its_normalized_tokens() {
    let layout = open_index(&todo_schema()).unwrap();
    let terms = plan(&title_query("Hello, happy TAX payer!"), &layout).unwrap();
    assert_eq!(
        terms,
        vec![
            Term::Token { key: 2, token: "hello".to_string() },
            Term::Token { key: 2, token: "happy".to_string() },
            Term::Token { key: 2, token: "tax".to_string() },
            Term::Token { key: 2, token: "payer".to_string() },
        ]
    );
    assert_eq!(plan(&title_query("  ...  "), &layout), Ok(Vec::new()));
}

#[test]
fn filters_come_before_full_text_in_a_plan() {
    let layout = open_index(&todo_schema()).unwrap();
    let query = Query {
        filters: vec![
            Filter { field: "done".to_string(), value: Scalar::Boolean(false) },
            Filter { field: "title".to_string(), value: Scalar::Text("Buy Milk".to_string()) },
        ],
        matches: vec![TextMatch { field: "body".to_string(), text: "Whole milk".to_string() }],
        sort: Sort::Relevance,
    };
    assert_eq!(
        plan(&query, &layout),
        Ok(vec![
            Term::Exact { key: 6, value: Scalar::Boolean(false) },
            Term::Exact { key: 1, value: Scalar::Text("Buy Milk".to_string()) },
            Term::Token { key: 5, token: "whole".to_string() },
            Term::Token { key: 5, token: "milk".to_string() },
        ])
    );
}

#[test]
fn what_the_index_cannot_look_up_is_unsupported() {
    let layout = open_index(&todo_schema()).unwrap();
    let unknown = Query {
        filters: vec![Filter { field: "owner".to_string(), value: Scalar::Text("me".to_string()) }],
        matches: Vec::new(),
        sort: Sort::Relevance,
    };
    assert_eq!(plan(&unknown, &layout), Err(SearchError::UnsupportedQuery));
    let misfit = Query {
        filters: vec![Filter { field: "views".to_string(), value: Scalar::Text("many".to_string()) }],
        matches: Vec::new(),
        sort: Sort::Relevance,
    };
    assert_eq!(plan(&misfit, &layout), Err(SearchError::UnsupportedQuery));
    let absent = Query {
        filters: vec![Filter { field: "title".to_string(), value: Scalar::Null }],
        matches: Vec::new(),
        sort: Sort::Relevance,
    };
    assert_eq!(plan(&absent, &layout), Err(SearchError::UnsupportedQuery));
    let untokenized = Query {
        filters: Vec::new(),
        matches: vec![TextMatch { field: "views".to_string(), text: "many".to_string() }],
        sort: Sort::Relevance,
    };
    assert_eq!(plan(&untokenized, &layout), Err(SearchError::UnsupportedQuery));
}

#[test]
fn fields_are_found_by_name_and_values_fit_by_type() {
    let layout = open_index(&todo_schema()).unwrap();
    assert_eq!(find_field(&layout, "body"), Some(2));
    assert_eq!(find_field(&layout, "Body"), None);
    assert!(value_fits(FieldType::Float, &Scalar::Integer(3)));
    assert!(value_fits(FieldType::Float, &Scalar::Real(0)));
    assert!(value_fits(FieldType::Date, &Scalar::Text("2024-01-01".to_string())));
    assert!(!value_fits(FieldType::Int, &Scalar::Real(0)));
    assert!(!value_fits(FieldType::Text, &Scalar::Bytes(vec![1])));
    assert_eq!(
        text_terms(9, &vec!["a".to_string(), "b".to_string()]),
        vec![Term::Token { key: 9, token: "a".to_string() }, Term::Token { key: 9, token: "b".to_string() }]
    );
}

#[test]
fn records_out_of_rank_order_are_refused() {
    let unordered = vec![entry(100, 1, "low"), entry(900, 2, "high")];
    assert_eq!(answer(&unordered, &request(title_query("milk"), 1, None)), Err(SearchError::UnorderedRanking));
    let doubled = vec![entry(100, 1, "a"), entry(100, 1, "b")];
    assert_eq!(answer(&doubled, &request(title_query("milk"), 1, None)), Err(SearchError::UnorderedRanking));
    let broken = request(title_query("milk"), 1, Some("zz".to_string()));
    assert_eq!(answer(&unordered, &broken), Err(SearchError::UnorderedRanking));
}

#[test]
fn records_in_rank_order_are_answered_page_by_page() {
    let entries = ranking();
    let first = answer(&entries, &request(title_query("milk"), 3, None)).unwrap();
    assert_eq!(first, respond(&entries, &request(title_query("milk"), 3, None)).unwrap());
    assert_eq!(ids(&first.hits), vec!["d", "a", "b"]);
    let second = answer(&entries, &request(title_query("milk"), 3, first.next_cursor.clone())).unwrap();
    assert_eq!(ids(&second.hits), vec!["g", "c", "e"]);
    let last = answer(&entries, &request(title_query("milk"), 3, second.next_cursor.clone())).unwrap();
    assert_eq!(ids(&last.hits), vec!["f"]);
    assert_eq!(last.next_cursor, None);
    let broken = request(title_query("milk"), 1, Some("zz".to_string()));
    assert_eq!(answer(&entries, &broken), Err(SearchError::MalformedCursor));
}

#[test]
fn only_the_sort_by_relevance_is_known() {
    assert_eq!(sort_of(None), Ok(Sort::Relevance));
    assert_eq!(sort_of(Some("relevance")), Ok(Sort::Relevance));
    assert_eq!(sort_of(Some("Relevance")), Err(SearchError::UnsupportedQuery));
    assert_eq!(sort_of(Some("title")), Err(SearchError::UnsupportedQuery));
    assert_eq!(sort_of(Some("")), Err(SearchError::UnsupportedQuery));
}
