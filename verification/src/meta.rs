//! The descriptive metadata attached to the finished album: a fixed-shape
//! record collected once from the operator and applied once at the end.
use vstd::prelude::*;

verus! {

/// Spec-level image of a metadata record.
pub struct MetaModel {
    pub title: Seq<char>,
    pub album: Seq<char>,
    pub artist: Seq<char>,
    pub year: i32,
}

/// A release year must be a four-digit integer.
pub open spec fn year_is_valid(year: i32) -> bool {
    1000 <= year <= 9999
}

/// Title, album, artist and release year for the finished output.
pub struct MetadataSet {
    pub title: String,
    pub album: String,
    pub artist: String,
    pub year: i32,
}

impl View for MetadataSet {
    type V = MetaModel;

    open spec fn view(&self) -> MetaModel {
        MetaModel {
            title: self.title@,
            album: self.album@,
            artist: self.artist@,
            year: self.year,
        }
    }
}

impl MetadataSet {
    /// Builds a metadata record, rejecting a year that is not four digits.
    pub fn new(title: String, album: String, artist: String, year: i32) -> (r: Option<
        MetadataSet,
    >)
        ensures
            r is Some <==> year_is_valid(year),
            r matches Some(m) ==> m@ == (MetaModel {
                title: title@,
                album: album@,
                artist: artist@,
                year,
            }),
    {
        if 1000 <= year && year <= 9999 {
            Some(MetadataSet { title, album, artist, year })
        } else {
            None
        }
    }
}

} // verus!
