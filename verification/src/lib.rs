//! Leaf clauses of a document-search query language: the clause model, its
//! JSON shape, and the extraction of clauses from a record of optional search
//! criteria.

pub mod criteria;
pub mod decimal;
pub mod dsl;
pub mod json;
pub mod range;
