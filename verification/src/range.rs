//! A range of whole numbers with optional bounds, as a search criterion.

use crate::decimal::{Decimal, DecimalView};
use crate::dsl::{ClauseView, QueryClause, ToClause};
use vstd::prelude::*;

verus! {

/// A range of `i32` values. A bound that is absent leaves that side open.
///
/// As a criterion the range always gives a closed `Range` clause: an absent
/// bound is replaced by the least or the greatest `i32`.
#[derive(Debug, Clone, Copy)]
pub struct Range {
    pub lower_bound: Option<i32>,
    pub upper_bound: Option<i32>,
}

impl Range {
    /// The lower bound of the clause: the bound given, or the least `i32`.
    pub open spec fn lower(self) -> int {
        match self.lower_bound {
            Some(bound) => bound as int,
            None => i32::MIN as int,
        }
    }

    /// The upper bound of the clause: the bound given, or the greatest `i32`.
    pub open spec fn upper(self) -> int {
        match self.upper_bound {
            Some(bound) => bound as int,
            None => i32::MAX as int,
        }
    }

    /// The clause that the range gives for the field at `field`: a `Range`
    /// clause from `lower` to `upper`, both whole numbers.
    pub open spec fn clause(self, field: Seq<char>) -> ClauseView {
        ClauseView::Range {
            field,
            gte: DecimalView { unscaled: self.lower(), scale: 0 },
            lte: DecimalView { unscaled: self.upper(), scale: 0 },
        }
    }
}

impl ToClause for Range {
    fn to_clause(&self, field: String) -> (clause: QueryClause)
        ensures
            clause@ == self.clause(field@),
    {
        let gte = match self.lower_bound {
            Some(lower_bound) => Decimal::from_i32(lower_bound),
            None => Decimal::from_i32(i32::MIN),
        };
        let lte = match self.upper_bound {
            Some(upper_bound) => Decimal::from_i32(upper_bound),
            None => Decimal::from_i32(i32::MAX),
        };
        QueryClause::Range { field, gte, lte }
    }
}

/// A range without a lower bound gives a clause whose `gte` is the least
/// `i32`, whatever its upper bound is.
pub proof fn lemma_absent_lower_bound_is_least(range: Range, field: Seq<char>)
    requires
        range.lower_bound is None,
    ensures
        range.clause(field) is Range,
        range.clause(field)->Range_gte == (DecimalView { unscaled: i32::MIN as int, scale: 0 }),
        range.clause(field)->Range_lte == (DecimalView { unscaled: range.upper(), scale: 0 }),
{
}

/// A range without an upper bound gives a clause whose `lte` is the greatest
/// `i32`, whatever its lower bound is.
pub proof fn lemma_absent_upper_bound_is_greatest(range: Range, field: Seq<char>)
    requires
        range.upper_bound is None,
    ensures
        range.clause(field) is Range,
        range.clause(field)->Range_gte == (DecimalView { unscaled: range.lower(), scale: 0 }),
        range.clause(field)->Range_lte == (DecimalView { unscaled: i32::MAX as int, scale: 0 }),
{
}

} // verus!
