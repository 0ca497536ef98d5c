//! The leaf clauses of a search query, the sort directive, and the JSON shape
//! of each.

use crate::decimal::{Decimal, DecimalView};
use crate::json::{texts, JsonValue, JsonView};
use vstd::prelude::*;
use vstd::std_specs::cmp::PartialEqSpecImpl;

verus! {

/// One leaf clause of a search query.
///
/// The model checks nothing: an empty `field`, or a range whose lower bound
/// lies above its upper bound, is a clause like any other.
#[allow(inconsistent_fields)]
#[derive(Debug)]
pub enum QueryClause {
    /// `field` matches the text `search_val`.
    Match { field: String, search_val: String },
    /// `field` lies between `gte` and `lte`, both included.
    Range { field: String, gte: Decimal, lte: Decimal },
    /// `field` is one of `search_val`, kept in the order given.
    Terms { field: String, search_val: Vec<String> },
    /// `field` starts with `search_val`, in any case where
    /// `is_case_insensitive` is set.
    Prefix { field: String, search_val: String, is_case_insensitive: bool },
}

/// What a [`QueryClause`] stands for.
#[allow(inconsistent_fields)]
pub enum ClauseView {
    Match { field: Seq<char>, search_val: Seq<char> },
    Range { field: Seq<char>, gte: DecimalView, lte: DecimalView },
    Terms { field: Seq<char>, search_val: Seq<Seq<char>> },
    Prefix { field: Seq<char>, search_val: Seq<char>, is_case_insensitive: bool },
}

impl View for QueryClause {
    type V = ClauseView;

    open spec fn view(&self) -> ClauseView {
        match self {
            QueryClause::Match { field, search_val } => ClauseView::Match {
                field: field@,
                search_val: search_val@,
            },
            QueryClause::Range { field, gte, lte } => ClauseView::Range {
                field: field@,
                gte: gte@,
                lte: lte@,
            },
            QueryClause::Terms { field, search_val } => ClauseView::Terms {
                field: field@,
                search_val: texts(search_val@),
            },
            QueryClause::Prefix { field, search_val, is_case_insensitive } => ClauseView::Prefix {
                field: field@,
                search_val: search_val@,
                is_case_insensitive: *is_case_insensitive,
            },
        }
    }
}

/// A copy of `strings`.
fn copy_strings(strings: &Vec<String>) -> (copy: Vec<String>)
    ensures
        texts(copy@) == texts(strings@),
{
    let mut copy: Vec<String> = Vec::new();
    let mut i: usize = 0;
    while i < strings.len()
        invariant
            i <= strings@.len(),
            copy@.len() == i,
            forall|j: int| 0 <= j < i ==> copy@[j]@ == strings@[j]@,
        decreases strings@.len() - i,
    {
        copy.push(strings[i].clone());
        i = i + 1;
    }
    assert(texts(copy@) =~= texts(strings@));
    copy
}

/// Whether `left` and `right` hold the same texts in the same order.
fn same_strings(left: &Vec<String>, right: &Vec<String>) -> (same: bool)
    ensures
        same == (texts(left@) == texts(right@)),
{
    if left.len() != right.len() {
        assert(texts(left@).len() != texts(right@).len());
        return false;
    }
    let mut i: usize = 0;
    while i < left.len()
        invariant
            left@.len() == right@.len(),
            i <= left@.len(),
            forall|j: int| 0 <= j < i ==> left@[j]@ == right@[j]@,
        decreases left@.len() - i,
    {
        if left[i] != right[i] {
            assert(texts(left@)[i as int] != texts(right@)[i as int]);
            return false;
        }
        i = i + 1;
    }
    assert(texts(left@) =~= texts(right@));
    true
}

impl Clone for QueryClause {
    fn clone(&self) -> (copy: QueryClause)
        ensures
            copy@ == self@,
    {
        match self {
            QueryClause::Match { field, search_val } => QueryClause::Match {
                field: field.clone(),
                search_val: search_val.clone(),
            },
            QueryClause::Range { field, gte, lte } => QueryClause::Range {
                field: field.clone(),
                gte: gte.clone(),
                lte: lte.clone(),
            },
            QueryClause::Terms { field, search_val } => QueryClause::Terms {
                field: field.clone(),
                search_val: copy_strings(search_val),
            },
            QueryClause::Prefix { field, search_val, is_case_insensitive } => QueryClause::Prefix {
                field: field.clone(),
                search_val: search_val.clone(),
                is_case_insensitive: *is_case_insensitive,
            },
        }
    }
}

impl PartialEq for QueryClause {
    /// Two clauses are equal where they are of the same kind and agree in
    /// every part.
    fn eq(&self, other: &QueryClause) -> (equal: bool) {
        match (self, other) {
            (
                QueryClause::Match { field, search_val },
                QueryClause::Match { field: other_field, search_val: other_val },
            ) => *field == *other_field && *search_val == *other_val,
            (
                QueryClause::Range { field, gte, lte },
                QueryClause::Range { field: other_field, gte: other_gte, lte: other_lte },
            ) => *field == *other_field && *gte == *other_gte && *lte == *other_lte,
            (
                QueryClause::Terms { field, search_val },
                QueryClause::Terms { field: other_field, search_val: other_val },
            ) => *field == *other_field && same_strings(search_val, other_val),
            (
                QueryClause::Prefix { field, search_val, is_case_insensitive },
                QueryClause::Prefix {
                    field: other_field,
                    search_val: other_val,
                    is_case_insensitive: other_flag,
                },
            ) => *field == *other_field && *search_val == *other_val && *is_case_insensitive
                == *other_flag,
            _ => false,
        }
    }
}

impl Eq for QueryClause {

}

impl PartialEqSpecImpl for QueryClause {
    open spec fn obeys_eq_spec() -> bool {
        true
    }

    open spec fn eq_spec(&self, other: &QueryClause) -> bool {
        self@ == other@
    }
}

/// The JSON object that holds the two bounds of a range: `gte` first, then
/// `lte`, each as the text of its number.
pub open spec fn range_json(gte: DecimalView, lte: DecimalView) -> JsonView {
    JsonView::object2(("gte"@, JsonView::Str(gte.text())), ("lte"@, JsonView::Str(lte.text())))
}

/// The JSON object that holds a prefix and its case flag: `value` first, then
/// `case_insensitive`.
pub open spec fn prefix_json(value: Seq<char>, is_case_insensitive: bool) -> JsonView {
    JsonView::object2(
        ("value"@, JsonView::Str(value)),
        ("case_insensitive"@, JsonView::Bool(is_case_insensitive)),
    )
}

impl ClauseView {
    /// The key under which the clause stands in a query.
    pub open spec fn kind(self) -> Seq<char> {
        match self {
            ClauseView::Match { .. } => "match"@,
            ClauseView::Range { .. } => "range"@,
            ClauseView::Terms { .. } => "terms"@,
            ClauseView::Prefix { .. } => "prefix"@,
        }
    }

    /// The path of the document field that the clause is about.
    pub open spec fn field(self) -> Seq<char> {
        match self {
            ClauseView::Match { field, .. } => field,
            ClauseView::Range { field, .. } => field,
            ClauseView::Terms { field, .. } => field,
            ClauseView::Prefix { field, .. } => field,
        }
    }

    /// What the clause asks of its field, as JSON.
    pub open spec fn body(self) -> JsonView {
        match self {
            ClauseView::Match { search_val, .. } => JsonView::Str(search_val),
            ClauseView::Range { gte, lte, .. } => range_json(gte, lte),
            ClauseView::Terms { search_val, .. } => JsonView::strings(search_val),
            ClauseView::Prefix { search_val, is_case_insensitive, .. } => prefix_json(
                search_val,
                is_case_insensitive,
            ),
        }
    }

    /// The clause without its kind: the object `{ field: body }`.
    pub open spec fn inner_json(self) -> JsonView {
        JsonView::object1(self.field(), self.body())
    }

    /// The clause as it stands in a query: the object `{ kind: { field: body } }`.
    pub open spec fn json(self) -> JsonView {
        JsonView::object1(self.kind(), self.inner_json())
    }
}

/// The JSON shape of each kind of clause, written out: the kind, then the
/// field, then what is asked of it, with `gte` before `lte` and `value`
/// before `case_insensitive`.
pub proof fn lemma_json_shape(clause: ClauseView)
    ensures
        clause matches ClauseView::Match { field, search_val } ==> clause.json()
            == JsonView::object1("match"@, JsonView::object1(field, JsonView::Str(search_val))),
        clause matches ClauseView::Range { field, gte, lte } ==> clause.json() == JsonView::object1(
            "range"@,
            JsonView::object1(
                field,
                JsonView::object2(
                    ("gte"@, JsonView::Str(gte.text())),
                    ("lte"@, JsonView::Str(lte.text())),
                ),
            ),
        ),
        clause matches ClauseView::Terms { field, search_val } ==> clause.json()
            == JsonView::object1("terms"@, JsonView::object1(field, JsonView::strings(search_val))),
        clause matches ClauseView::Prefix { field, search_val, is_case_insensitive }
            ==> clause.json() == JsonView::object1(
            "prefix"@,
            JsonView::object1(
                field,
                JsonView::object2(
                    ("value"@, JsonView::Str(search_val)),
                    ("case_insensitive"@, JsonView::Bool(is_case_insensitive)),
                ),
            ),
        ),
{
}

/// The direction of a sort.
#[derive(Debug)]
pub enum SortType {
    Asc,
    Desc,
}

impl Clone for SortType {
    fn clone(&self) -> (copy: SortType)
        ensures
            copy == *self,
    {
        match self {
            SortType::Asc => SortType::Asc,
            SortType::Desc => SortType::Desc,
        }
    }
}

impl PartialEq for SortType {
    fn eq(&self, other: &SortType) -> (equal: bool) {
        match (self, other) {
            (SortType::Asc, SortType::Asc) => true,
            (SortType::Desc, SortType::Desc) => true,
            _ => false,
        }
    }
}

impl Eq for SortType {

}

impl PartialEqSpecImpl for SortType {
    open spec fn obeys_eq_spec() -> bool {
        true
    }

    open spec fn eq_spec(&self, other: &SortType) -> bool {
        *self == *other
    }
}

impl SortType {
    /// The word that stands for the direction in a query.
    pub open spec fn keyword(self) -> Seq<char> {
        match self {
            SortType::Asc => "asc"@,
            SortType::Desc => "desc"@,
        }
    }

    /// The word that stands for the direction in a query: `asc` or `desc`.
    pub fn to_string(&self) -> (word: String)
        ensures
            word@ == self.keyword(),
    {
        match self {
            SortType::Asc => "asc".to_owned(),
            SortType::Desc => "desc".to_owned(),
        }
    }
}

/// A sort directive: one field and a direction.
#[derive(Debug)]
pub struct QuerySort {
    pub field_name: String,
    pub ordering: SortType,
}

impl Clone for QuerySort {
    fn clone(&self) -> (copy: QuerySort)
        ensures
            copy.field_name@ == self.field_name@,
            copy.ordering == self.ordering,
    {
        QuerySort { field_name: self.field_name.clone(), ordering: self.ordering.clone() }
    }
}

impl PartialEq for QuerySort {
    /// Two directives are equal where they name the same field and the same
    /// direction.
    fn eq(&self, other: &QuerySort) -> (equal: bool) {
        self.field_name == other.field_name && self.ordering == other.ordering
    }
}

impl Eq for QuerySort {

}

impl PartialEqSpecImpl for QuerySort {
    open spec fn obeys_eq_spec() -> bool {
        true
    }

    open spec fn eq_spec(&self, other: &QuerySort) -> bool {
        self.field_name@ == other.field_name@ && self.ordering == other.ordering
    }
}

/// The JSON shape of a sort directive: the object `{ field: "asc" }` or
/// `{ field: "desc" }`.
pub open spec fn sort_json(field_name: Seq<char>, ordering: SortType) -> JsonView {
    JsonView::object1(field_name, JsonView::Str(ordering.keyword()))
}

impl QuerySort {
    /// The directive as JSON.
    pub fn serialize(&self) -> (json: JsonValue)
        ensures
            json@ == sort_json(self.field_name@, self.ordering),
    {
        JsonValue::object1(self.field_name.clone(), JsonValue::Str(self.ordering.to_string()))
    }
}

/// A clause seen without its kind: it serializes to `{ field: body }`.
pub struct InnerQueryClause<'a>(pub &'a QueryClause);

/// The two bounds of a range, lower bound first.
pub struct InnerRange<'a>(pub &'a Decimal, pub &'a Decimal);

/// A prefix and its case flag.
pub struct InnerPrefix<'a>(pub &'a String, pub &'a bool);

impl<'a> InnerRange<'a> {
    /// The bounds as JSON: `{ "gte": .., "lte": .. }`.
    pub fn serialize(&self) -> (json: JsonValue)
        ensures
            json@ == range_json(self.0@, self.1@),
    {
        JsonValue::object2(
            ("gte".to_owned(), JsonValue::Str(self.0.to_text())),
            ("lte".to_owned(), JsonValue::Str(self.1.to_text())),
        )
    }
}

impl<'a> InnerPrefix<'a> {
    /// The prefix as JSON: `{ "value": .., "case_insensitive": .. }`.
    pub fn serialize(&self) -> (json: JsonValue)
        ensures
            json@ == prefix_json(self.0@, *self.1),
    {
        JsonValue::object2(
            ("value".to_owned(), JsonValue::Str(self.0.clone())),
            ("case_insensitive".to_owned(), JsonValue::Bool(*self.1)),
        )
    }
}

impl<'a> InnerQueryClause<'a> {
    /// The clause without its kind, as JSON: `{ field: body }`.
    pub fn serialize(&self) -> (json: JsonValue)
        ensures
            json@ == self.0@.inner_json(),
    {
        match self.0 {
            QueryClause::Match { field, search_val } => JsonValue::object1(
                field.clone(),
                JsonValue::Str(search_val.clone()),
            ),
            QueryClause::Range { field, gte, lte } => JsonValue::object1(
                field.clone(),
                InnerRange(gte, lte).serialize(),
            ),
            QueryClause::Terms { field, search_val } => JsonValue::object1(
                field.clone(),
                JsonValue::strings(search_val),
            ),
            QueryClause::Prefix { field, search_val, is_case_insensitive } => JsonValue::object1(
                field.clone(),
                InnerPrefix(search_val, is_case_insensitive).serialize(),
            ),
        }
    }
}

impl QueryClause {
    /// The clause as it stands in a query: `{ kind: { field: body } }`.
    pub fn serialize(&self) -> (json: JsonValue)
        ensures
            json@ == self@.json(),
    {
        let inner = InnerQueryClause(self).serialize();
        match self {
            QueryClause::Match { .. } => JsonValue::object1("match".to_owned(), inner),
            QueryClause::Range { .. } => JsonValue::object1("range".to_owned(), inner),
            QueryClause::Terms { .. } => JsonValue::object1("terms".to_owned(), inner),
            QueryClause::Prefix { .. } => JsonValue::object1("prefix".to_owned(), inner),
        }
    }
}

/// A value that can stand as a search criterion: bound to the path of a
/// document field, it gives one clause.
pub trait ToClause {
    /// The clause that this value gives for the field at `field`.
    fn to_clause(&self, field: String) -> QueryClause;
}

/// `clause` is a clause that `value` gives for the field at `path`.
pub open spec fn gives<T: ToClause>(value: T, path: Seq<char>, clause: QueryClause) -> bool {
    exists|field: String|
        field@ == path && #[trigger] call_ensures(T::to_clause, (&value, field), clause)
}

} // verus!
