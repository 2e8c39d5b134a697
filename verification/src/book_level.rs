//! Order-book detail levels.
//!
//! The book endpoint returns structurally different payloads depending on a
//! `level` query parameter, and levels 1 and 2 share a schema while level 3
//! does not.  Each level is a distinct marker type implementing
//! [`BookLevel<T>`], where `T` is the one book shape that level decodes
//! into: a caller can neither request an unsupported level nor pair a level
//! with the wrong schema.  These three markers are the only implementations.

use vstd::prelude::*;

use crate::model::AggregatedBook;
use crate::model::FullBook;

verus! {

/// Requests only the best bid and ask; decodes into [`AggregatedBook`].
pub struct Best();

/// Requests the top 50 aggregated bids and asks; decodes into
/// [`AggregatedBook`].
pub struct Top50();

/// Requests the full non-aggregated book; decodes into [`FullBook`].
pub struct Full();

/// A selectable book detail level whose response decodes into `T`.
pub trait BookLevel<T> {
    /// The query fragment that selects this level on the wire.
    spec fn fragment() -> Seq<char>;

    /// The query fragment that selects this level on the wire.
    fn to_str(&self) -> (r: &'static str)
        ensures
            r@ == Self::fragment(),
    ;
}

impl BookLevel<AggregatedBook> for Best {
    open spec fn fragment() -> Seq<char> {
        "level=1"@
    }

    fn to_str(&self) -> (r: &'static str) {
        "level=1"
    }
}

impl BookLevel<AggregatedBook> for Top50 {
    open spec fn fragment() -> Seq<char> {
        "level=2"@
    }

    fn to_str(&self) -> (r: &'static str) {
        "level=2"
    }
}

impl BookLevel<FullBook> for Full {
    open spec fn fragment() -> Seq<char> {
        "level=3"@
    }

    fn to_str(&self) -> (r: &'static str) {
        "level=3"
    }
}

} // verus!
