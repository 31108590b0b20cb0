//! Builds OverpassQL queries from command-line settings and prepares
//! server responses for printing.
//!
//! The query pipeline mirrors what the command-line front end needs:
//! trim the raw query text, prepend a settings header, make sure the
//! query ends with a semicolon, and append a default output clause when
//! the last statement does not already select one.

pub mod api;
pub mod query;
pub mod settings;
pub mod text;

use vstd::prelude::*;

verus! {

} // verus!
