use vstd::prelude::*;

verus! {

/// The album part of a parsed tag set.
pub struct AlbumInfo {
    pub title: String,
}

/// The fields that the tag parser read from one audio file. Each is absent
/// where the container lacked it; a present string may be empty.
pub struct TagFields {
    pub title: Option<String>,
    pub artist: Option<String>,
    pub album: Option<AlbumInfo>,
    pub year: Option<i32>,
    pub track_number: Option<u16>,
    pub genre: Option<String>,
    pub comment: Option<String>,
}

impl TagFields {
    /// A tag set in which no field is present.
    pub fn empty() -> (r: TagFields)
        ensures
            r.title is None,
            r.artist is None,
            r.album is None,
            r.year is None,
            r.track_number is None,
            r.genre is None,
            r.comment is None,
    {
        TagFields {
            title: None,
            artist: None,
            album: None,
            year: None,
            track_number: None,
            genre: None,
            comment: None,
        }
    }
}

} // verus!
