//! Dates and instants as the API writes them: RFC 3339 / ISO 8601 text
//! (`2020-02-29T10:56:56+00:00`, `2020-02-29`), carried as text.
use vstd::prelude::*;

verus! {

/// An instant as the API writes it, such as `2020-02-29T10:56:56+00:00`.
pub type DateTime = String;

/// A calendar date as the API writes it, such as `2020-02-29`.
pub type Date = String;

} // verus!
