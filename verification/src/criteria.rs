//! From a record of optional search criteria to the clauses of a query.
//!
//! A record is a list of fields in the order of their declaration. A field
//! may be bound to the path of a document field, and may hold a value. The
//! fields that have both give one clause each, in the order of the record;
//! the others give nothing.

use crate::dsl::{gives, QueryClause, ToClause};
use vstd::prelude::*;

verus! {

/// One field of a criteria record.
pub struct SearchField<T> {
    /// The path of the document field that this field searches, where it is
    /// bound to one.
    pub path: Option<String>,
    /// The criterion, where the caller gave one.
    pub value: Option<T>,
}

impl<T> SearchField<T> {
    /// Whether the field gives a clause: it is bound to a path and holds a
    /// value.
    pub open spec fn participates(self) -> bool {
        self.path is Some && self.value is Some
    }
}

/// The positions in a record of the fields that give a clause, in rising
/// order.
pub open spec fn sources<T>(fields: Seq<SearchField<T>>) -> Seq<int>
    decreases fields.len(),
{
    if fields.len() == 0 {
        Seq::empty()
    } else if fields.last().participates() {
        sources(fields.drop_last()).push(fields.len() - 1)
    } else {
        sources(fields.drop_last())
    }
}

/// Appends to `clauses` the clause that `value` gives for the field at
/// `path`, where there is a value; an absent value leaves `clauses` as it is.
pub fn push_clause<T: ToClause>(clauses: &mut Vec<QueryClause>, path: &str, value: &Option<T>)
    ensures
        value is None ==> final(clauses)@ == old(clauses)@,
        value is Some ==> {
            &&& final(clauses)@.len() == old(clauses)@.len() + 1
            &&& final(clauses)@.drop_last() == old(clauses)@
            &&& gives(value->0, path@, final(clauses)@.last())
        },
{
    match value {
        Some(criterion) => {
            let field = path.to_owned();
            let clause = criterion.to_clause(field);
            assert(call_ensures(T::to_clause, (criterion, field), clause));
            clauses.push(clause);
            assert(clauses@.drop_last() =~= old(clauses)@);
        },
        None => {},
    }
}

/// The clauses of the record `fields`: one for each field that is bound to a
/// path and holds a value, in the order of the record. The clause at place
/// `k` is the one that the value of field `sources(fields)[k]` gives for the
/// path of that field. A record without values has no clauses.
pub fn to_clauses<T: ToClause>(fields: &Vec<SearchField<T>>) -> (clauses: Vec<QueryClause>)
    ensures
        clauses@.len() == sources(fields@).len(),
        forall|k: int|
            0 <= k < clauses@.len() ==> {
                let field = fields@[sources(fields@)[k]];
                gives(field.value->0, field.path->0@, #[trigger] clauses@[k])
            },
        (forall|i: int| 0 <= i < fields@.len() ==> (#[trigger] fields@[i]).value is None)
            ==> clauses@.len() == 0,
{
    let mut clauses: Vec<QueryClause> = Vec::new();
    let mut i: usize = 0;
    while i < fields.len()
        invariant
            i <= fields@.len(),
            clauses@.len() == sources(fields@.take(i as int)).len(),
            forall|k: int|
                0 <= k < clauses@.len() ==> {
                    let field = fields@[sources(fields@.take(i as int))[k]];
                    gives(field.value->0, field.path->0@, #[trigger] clauses@[k])
                },
        decreases fields@.len() - i,
    {
        let field = &fields[i];
        let ghost before = clauses@;
        let ghost prior = sources(fields@.take(i as int));
        let ghost now = sources(fields@.take(i as int + 1));
        proof {
            let upto = fields@.take(i as int + 1);
            assert(upto.drop_last() =~= fields@.take(i as int));
            assert(upto.last() == fields@[i as int]);
        }
        match &field.path {
            Some(path) => {
                push_clause(&mut clauses, path.as_str(), &field.value);
            },
            None => {},
        }
        proof {
            assert forall|k: int| 0 <= k < clauses@.len() implies {
                let source = fields@[now[k]];
                gives(source.value->0, source.path->0@, #[trigger] clauses@[k])
            } by {
                if k < before.len() {
                    assert(clauses@[k] == before[k]) by {
                        if clauses@.len() > before.len() {
                            assert(clauses@.drop_last()[k] == clauses@[k]);
                        }
                    }
                    assert(now[k] == prior[k]);
                } else {
                    assert(now[k] == i);
                }
            }
        }
        i = i + 1;
    }
    proof {
        assert(fields@.take(i as int) =~= fields@);
        if forall|i: int| 0 <= i < fields@.len() ==> (#[trigger] fields@[i]).value is None {
            lemma_absent_values_give_no_clause(fields@);
        }
    }
    clauses
}

/// The clauses of a record stand in the order in which its fields are
/// declared, whichever of them give one: `sources` lists the positions of
/// exactly the fields that are bound to a path and hold a value, each once
/// and in rising order.
pub proof fn lemma_sources_keep_declared_order<T>(fields: Seq<SearchField<T>>)
    ensures
        sources(fields).len() <= fields.len(),
        forall|k: int|
            0 <= k < sources(fields).len() ==> {
                let at = #[trigger] sources(fields)[k];
                0 <= at < fields.len() && fields[at].participates()
            },
        forall|a: int, b: int|
            0 <= a < b < sources(fields).len() ==> sources(fields)[a] < sources(fields)[b],
        forall|i: int|
            0 <= i < fields.len() && (#[trigger] fields[i]).participates() ==> sources(
                fields,
            ).contains(i),
    decreases fields.len(),
{
    if fields.len() > 0 {
        let front = fields.drop_last();
        let last = fields.len() - 1;
        lemma_sources_keep_declared_order(front);
        assert forall|i: int| 0 <= i < fields.len() && (#[trigger] fields[i]).participates()
            implies sources(fields).contains(i) by {
            if i < last {
                assert(front[i].participates());
                let k = choose|k: int| 0 <= k < sources(front).len() && sources(front)[k] == i;
                assert(sources(fields)[k] == i);
            } else {
                assert(sources(fields)[sources(fields).len() - 1] == i);
            }
        }
    }
}

/// A record in which no field holds a value has no clauses.
pub proof fn lemma_absent_values_give_no_clause<T>(fields: Seq<SearchField<T>>)
    requires
        forall|i: int| 0 <= i < fields.len() ==> (#[trigger] fields[i]).value is None,
    ensures
        sources(fields) == Seq::<int>::empty(),
    decreases fields.len(),
{
    if fields.len() > 0 {
        lemma_absent_values_give_no_clause(fields.drop_last());
    }
}

/// A record in which no field is bound to a path has no clauses.
pub proof fn lemma_unbound_fields_give_no_clause<T>(fields: Seq<SearchField<T>>)
    requires
        forall|i: int| 0 <= i < fields.len() ==> (#[trigger] fields[i]).path is None,
    ensures
        sources(fields) == Seq::<int>::empty(),
    decreases fields.len(),
{
    if fields.len() > 0 {
        lemma_unbound_fields_give_no_clause(fields.drop_last());
    }
}

/// The attribute that binds a field of a criteria record to the path of a
/// document field. Its argument is the path.
pub open spec fn search_field_attr() -> Seq<char> {
    "search_field"@
}

/// The place, among the names of the attributes of one declared field, of the
/// attribute that binds the field to a path: the first one named
/// `search_field`. A field without one takes no part in a search.
pub fn find_search_field(attr_names: &Vec<String>) -> (found: Option<usize>)
    ensures
        match found {
            Some(at) => {
                &&& at < attr_names@.len()
                &&& attr_names@[at as int]@ == search_field_attr()
                &&& forall|j: int| 0 <= j < at ==> attr_names@[j]@ != search_field_attr()
            },
            None => forall|j: int|
                0 <= j < attr_names@.len() ==> attr_names@[j]@ != search_field_attr(),
        },
{
    let wanted = "search_field".to_owned();
    let mut i: usize = 0;
    while i < attr_names.len()
        invariant
            i <= attr_names@.len(),
            wanted@ == search_field_attr(),
            forall|j: int| 0 <= j < i ==> attr_names@[j]@ != search_field_attr(),
        decreases attr_names@.len() - i,
    {
        if attr_names[i] == wanted {
            return Some(i);
        }
        i = i + 1;
    }
    None
}

} // verus!
