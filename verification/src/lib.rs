//! The input and state engine of a keyboard-driven HTTP client: the focus
//! model, the header editor, the text fields, the key router, and the
//! in-memory stores for history and collections.

use vstd::prelude::*;

pub use crate::collections::CollectionManager;
pub use crate::config::AppConfig;
pub use crate::history::History;
pub use crate::model::HttpMethod;
pub use crate::state::App;

pub mod actions;
mod clock;
pub mod collections;
pub mod config;
pub mod headers;
pub mod history;
pub mod http;
pub mod input;
pub mod laws;
pub mod model;
pub mod state;
pub mod text;

verus! {

/// Sum of two counters; callers keep the operands within range.
pub fn add(left: u64, right: u64) -> (sum: u64)
    requires
        left + right <= u64::MAX,
    ensures
        sum == left + right,
{
    left + right
}

} // verus!
