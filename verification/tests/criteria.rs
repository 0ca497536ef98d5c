use elasticsearch_query::criteria::{find_search_field, push_clause, to_clauses, SearchField};
use elasticsearch_query::decimal::Decimal;
use elasticsearch_query::dsl::{QueryClause, ToClause};
use elasticsearch_query::range::Range;

/// A criterion that gives a `Match` clause for its text.
struct Exactly(String);

impl ToClause for Exactly {
    fn to_clause(&self, field: String) -> QueryClause {
        QueryClause::Match {
            field,
            search_val: self.0.clone(),
        }
    }
}

fn field(path: Option<&str>, value: Option<&str>) -> SearchField<Exactly> {
    SearchField {
        path: path.map(|p| p.to_string()),
        value: value.map(|v| Exactly(v.to_string())),
    }
}

fn matching(field: &str, value: &str) -> QueryClause {
    QueryClause::Match {
        field: field.to_string(),
        search_val: value.to_string(),
    }
}

#[test]
fn every_present_field_gives_its_clause_in_declared_order() {
    let record = vec![
        field(Some("a"), Some("1")),
        field(Some("b"), Some("2")),
        field(Some("c"), Some("3")),
    ];
    assert_eq!(
        to_clauses(&record),
        vec![matching("a", "1"), matching("b", "2"), matching("c", "3")]
    );
}

#[test]
fn declared_order_holds_for_every_subset_of_present_fields() {
    let paths = ["a", "b", "c", "d"];
    let values = ["1", "2", "3", "4"];
    for subset in 0u32..16 {
        let mut record = Vec::new();
        let mut expected = Vec::new();
        for at in 0..4 {
            if subset & (1 << at) != 0 {
                record.push(field(Some(paths[at]), Some(values[at])));
                expected.push(matching(paths[at], values[at]));
            } else {
                record.push(field(Some(paths[at]), None));
            }
        }
        assert_eq!(to_clauses(&record), expected);
    }
}

#[test]
fn a_record_without_values_gives_no_clause() {
    let record = vec![
        field(Some("a"), None),
        field(Some("b"), None),
        field(None, None),
    ];
    assert_eq!(to_clauses(&record), Vec::<QueryClause>::new());
}

#[test]
fn an_empty_record_gives_no_clause() {
    let record: Vec<SearchField<Exactly>> = Vec::new();
    assert_eq!(to_clauses(&record), Vec::<QueryClause>::new());
}

#[test]
fn a_field_without_a_path_is_passed_over() {
    let record = vec![
        field(Some("a"), Some("1")),
        field(None, Some("2")),
        field(Some("c"), Some("3")),
    ];
    assert_eq!(to_clauses(&record), vec![matching("a", "1"), matching("c", "3")]);
}

#[test]
fn two_fields_with_one_path_both_give_their_clause() {
    let record = vec![field(Some("a"), Some("2")), field(Some("a"), Some("1"))];
    assert_eq!(to_clauses(&record), vec![matching("a", "2"), matching("a", "1")]);
}

#[test]
fn push_clause_appends_behind_what_is_there() {
    let mut clauses = vec![matching("a", "1")];
    push_clause(&mut clauses, "b", &Some(Exactly("2".to_string())));
    assert_eq!(clauses, vec![matching("a", "1"), matching("b", "2")]);
}

#[test]
fn push_clause_leaves_the_list_alone_without_a_value() {
    let mut clauses = vec![matching("a", "1")];
    push_clause(&mut clauses, "b", &None::<Exactly>);
    assert_eq!(clauses, vec![matching("a", "1")]);
}

#[test]
fn a_record_of_several_types_is_read_field_by_field() {
    let name = Some(Exactly("global".to_string()));
    let risk: Option<Range> = None;
    let ytd = Some(Range {
        lower_bound: None,
        upper_bound: Some(6),
    });
    let mut clauses = Vec::new();
    push_clause(&mut clauses, "fund_name", &name);
    push_clause(&mut clauses, "risk_spectrum", &risk);
    push_clause(&mut clauses, "fund_statistics.return_ytd", &ytd);
    assert_eq!(
        clauses,
        vec![
            matching("fund_name", "global"),
            QueryClause::Range {
                field: "fund_statistics.return_ytd".to_string(),
                gte: Decimal::from_i32(i32::MIN),
                lte: Decimal::from_i32(6),
            },
        ]
    );
}

#[test]
fn extraction_twice_gives_the_same_clauses() {
    let record = vec![field(Some("a"), Some("1")), field(Some("b"), None)];
    assert_eq!(to_clauses(&record), to_clauses(&record));
}

fn names(list: &[&str]) -> Vec<String> {
    list.iter().map(|name| name.to_string()).collect()
}

#[test]
fn the_search_field_attribute_is_found_by_its_name() {
    assert_eq!(find_search_field(&names(&["search_field"])), Some(0));
    assert_eq!(find_search_field(&names(&["doc", "serde", "search_field"])), Some(2));
}

#[test]
fn the_first_search_field_attribute_counts() {
    assert_eq!(
        find_search_field(&names(&["doc", "search_field", "search_field"])),
        Some(1)
    );
}

#[test]
fn a_field_without_the_attribute_has_no_path() {
    assert_eq!(find_search_field(&names(&[])), None);
    assert_eq!(find_search_field(&names(&["doc", "serde"])), None);
    assert_eq!(find_search_field(&names(&["search_fields", "Search_field", ""])), None);
}
