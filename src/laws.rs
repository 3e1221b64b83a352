use vstd::prelude::*;
use crate::json::{FieldModel, value_text, decimal_of};
use crate::metadata::{failure_message, error_entries, tag_entries, metadata_keys};
use crate::tags::TagFields;

verus! {

/// `needle` stands somewhere in `hay` as a contiguous run.
pub open spec fn contains(hay: Seq<char>, needle: Seq<char>) -> bool {
    exists|i: int|
        0 <= i && i + needle.len() <= hay.len() && #[trigger] hay.subrange(i, i + needle.len())
            == needle
}

/// A string field that the tags lack or hold empty.
pub open spec fn blank(v: Option<String>) -> bool {
    match v {
        Some(s) => s@.len() == 0,
        None => true,
    }
}

/// When a file cannot be read, the error object's message holds the path
/// that was asked for, whatever the parser said.
pub proof fn law_error_message_holds_path(path: Seq<char>, detail: Seq<char>)
    ensures
        error_entries(path, detail)[1].0 == "message"@,
        error_entries(path, detail)[1].1 == FieldModel::Text(failure_message(path, detail)),
        contains(failure_message(path, detail), path),
{
    let m = failure_message(path, detail);
    let k: int = "failed to read file "@.len() as int;
    assert(m.subrange(k, k + path.len() as int) =~= path);
}

/// Every record written for a parsed file has exactly the seven keys
/// title, artist, album_name, year, track_number, genre and comment, each
/// once.
pub proof fn law_record_keys(t: TagFields)
    ensures
        tag_entries(t).map_values(|e: (Seq<char>, FieldModel)| e.0) == metadata_keys(),
        metadata_keys().len() == 7,
        metadata_keys().no_duplicates(),
{
    assert(tag_entries(t).map_values(|e: (Seq<char>, FieldModel)| e.0) =~= metadata_keys());
    reveal_strlit("title");
    reveal_strlit("artist");
    reveal_strlit("album_name");
    reveal_strlit("year");
    reveal_strlit("track_number");
    reveal_strlit("genre");
    reveal_strlit("comment");
    let ks = metadata_keys();
    assert forall|i: int, j: int| 0 <= i < ks.len() && 0 <= j < ks.len() && i != j implies ks[i]
        != ks[j] by {
        if ks[i] == ks[j] {
            assert(ks[i][0] == ks[j][0]);
            assert(ks[i].len() == ks[j].len());
        }
    }
}

/// A string field that the tags lack or hold empty is written as null.
pub proof fn law_blank_text_is_null(t: TagFields)
    ensures
        blank(t.title) ==> tag_entries(t)[0].1 == FieldModel::Null,
        blank(t.artist) ==> tag_entries(t)[1].1 == FieldModel::Null,
        blank(t.genre) ==> tag_entries(t)[5].1 == FieldModel::Null,
        blank(t.comment) ==> tag_entries(t)[6].1 == FieldModel::Null,
{
}

/// A string field that holds a non-empty string is written as that string,
/// unchanged; so is the album's title whenever the album is present.
pub proof fn law_text_kept_verbatim(t: TagFields)
    ensures
        t.title is Some && t.title->0@.len() > 0 ==> tag_entries(t)[0].1 == FieldModel::Text(
            t.title->0@,
        ),
        t.artist is Some && t.artist->0@.len() > 0 ==> tag_entries(t)[1].1 == FieldModel::Text(
            t.artist->0@,
        ),
        t.album is Some ==> tag_entries(t)[2].1 == FieldModel::Text(t.album->0.title@),
        t.genre is Some && t.genre->0@.len() > 0 ==> tag_entries(t)[5].1 == FieldModel::Text(
            t.genre->0@,
        ),
        t.comment is Some && t.comment->0@.len() > 0 ==> tag_entries(t)[6].1 == FieldModel::Text(
            t.comment->0@,
        ),
{
}

/// A numeric field that is present is written as the integer itself, in
/// decimal and unquoted, never as a string.
pub proof fn law_numbers_stay_integers(t: TagFields)
    ensures
        t.year matches Some(y) ==> tag_entries(t)[3].1 == FieldModel::Integer(y as int)
            && value_text(tag_entries(t)[3].1) == decimal_of(y as int),
        t.track_number matches Some(n) ==> tag_entries(t)[4].1 == FieldModel::Integer(n as int)
            && value_text(tag_entries(t)[4].1) == decimal_of(n as int),
        t.year is None ==> tag_entries(t)[3].1 == FieldModel::Null,
        t.track_number is None ==> tag_entries(t)[4].1 == FieldModel::Null,
{
}

} // verus!
