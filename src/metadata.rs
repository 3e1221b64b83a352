use vstd::prelude::*;
use vstd::string::StringExecFns;
use crate::json::{FieldValue, FieldModel, entry_models, object_text, render_object};
use crate::tags::TagFields;

verus! {

/// A string field after normalization: absent when the tag was absent or
/// held the empty string, else the string itself.
pub open spec fn normalized_text(v: Option<String>) -> Option<Seq<char>> {
    match v {
        Some(s) => if s@.len() == 0 {
            None
        } else {
            Some(s@)
        },
        None => None,
    }
}

/// The view of an optional string.
pub open spec fn text_view(v: Option<String>) -> Option<Seq<char>> {
    match v {
        Some(s) => Some(s@),
        None => None,
    }
}

/// The album name of a tag set: the album's title as it stands, empty or
/// not; absent only when the album is.
pub open spec fn album_name_of(t: TagFields) -> Option<Seq<char>> {
    match t.album {
        Some(a) => Some(a.title@),
        None => None,
    }
}

/// Drops an empty string: the one normalization rule for the string fields.
pub fn normalize_text(v: Option<String>) -> (r: Option<String>)
    ensures
        text_view(r) == normalized_text(v),
{
    match v {
        Some(s) => if s.as_str().is_empty() {
            None
        } else {
            Some(s)
        },
        None => None,
    }
}

/// The normalized record of one audio file's tags: seven fields, each
/// absent or holding the tag's value.
pub struct NormalizedMetadata {
    pub title: Option<String>,
    pub artist: Option<String>,
    pub album_name: Option<String>,
    pub year: Option<i32>,
    pub track_number: Option<u16>,
    pub genre: Option<String>,
    pub comment: Option<String>,
}

/// The record that normalizing `t` gives, field by field.
pub open spec fn normalizes(m: NormalizedMetadata, t: TagFields) -> bool {
    &&& text_view(m.title) == normalized_text(t.title)
    &&& text_view(m.artist) == normalized_text(t.artist)
    &&& text_view(m.album_name) == album_name_of(t)
    &&& m.year == t.year
    &&& m.track_number == t.track_number
    &&& text_view(m.genre) == normalized_text(t.genre)
    &&& text_view(m.comment) == normalized_text(t.comment)
}

impl NormalizedMetadata {
    /// Normalizes each field of a parsed tag set on its own.
    pub fn from_tags(t: TagFields) -> (r: NormalizedMetadata)
        ensures
            normalizes(r, t),
    {
        let album_name = match t.album {
            Some(a) => Some(a.title),
            None => None,
        };
        NormalizedMetadata {
            title: normalize_text(t.title),
            artist: normalize_text(t.artist),
            album_name,
            year: t.year,
            track_number: t.track_number,
            genre: normalize_text(t.genre),
            comment: normalize_text(t.comment),
        }
    }
}

/// The keys of a normalized record, in the order it is written.
pub open spec fn metadata_keys() -> Seq<Seq<char>> {
    seq!["title"@, "artist"@, "album_name"@, "year"@, "track_number"@, "genre"@, "comment"@]
}

/// A string field as a JSON value: null when absent.
pub open spec fn text_model(v: Option<Seq<char>>) -> FieldModel {
    match v {
        Some(s) => FieldModel::Text(s),
        None => FieldModel::Null,
    }
}

/// A numeric field as a JSON value: null when absent.
pub open spec fn number_model(v: Option<int>) -> FieldModel {
    match v {
        Some(n) => FieldModel::Integer(n),
        None => FieldModel::Null,
    }
}

/// The members of the record written for a normalized record.
pub open spec fn metadata_entries(m: NormalizedMetadata) -> Seq<(Seq<char>, FieldModel)> {
    seq![
        ("title"@, text_model(text_view(m.title))),
        ("artist"@, text_model(text_view(m.artist))),
        ("album_name"@, text_model(text_view(m.album_name))),
        ("year"@, number_model(
            match m.year {
                Some(y) => Some(y as int),
                None => None,
            },
        )),
        ("track_number"@, number_model(
            match m.track_number {
                Some(n) => Some(n as int),
                None => None,
            },
        )),
        ("genre"@, text_model(text_view(m.genre))),
        ("comment"@, text_model(text_view(m.comment))),
    ]
}

/// The members of the record written for a parsed tag set.
pub open spec fn tag_entries(t: TagFields) -> Seq<(Seq<char>, FieldModel)> {
    seq![
        ("title"@, text_model(normalized_text(t.title))),
        ("artist"@, text_model(normalized_text(t.artist))),
        ("album_name"@, text_model(album_name_of(t))),
        ("year"@, number_model(
            match t.year {
                Some(y) => Some(y as int),
                None => None,
            },
        )),
        ("track_number"@, number_model(
            match t.track_number {
                Some(n) => Some(n as int),
                None => None,
            },
        )),
        ("genre"@, text_model(normalized_text(t.genre))),
        ("comment"@, text_model(normalized_text(t.comment))),
    ]
}

fn text_value(v: &Option<String>) -> (r: FieldValue)
    ensures
        r@ == text_model(text_view(*v)),
{
    match v {
        Some(s) => FieldValue::Text(s.clone()),
        None => FieldValue::Null,
    }
}

fn number_value(v: Option<i64>) -> (r: FieldValue)
    ensures
        r@ == number_model(
            match v {
                Some(n) => Some(n as int),
                None => None,
            },
        ),
{
    match v {
        Some(n) => FieldValue::Integer(n),
        None => FieldValue::Null,
    }
}

impl NormalizedMetadata {
    /// The seven members of the record, keyed by field name, in order.
    pub fn entries(&self) -> (r: Vec<(String, FieldValue)>)
        ensures
            entry_models(r@) == metadata_entries(*self),
    {
        let year = match self.year {
            Some(y) => Some(y as i64),
            None => None,
        };
        let track_number = match self.track_number {
            Some(n) => Some(n as i64),
            None => None,
        };
        let r = vec![
            (String::from_str("title"), text_value(&self.title)),
            (String::from_str("artist"), text_value(&self.artist)),
            (String::from_str("album_name"), text_value(&self.album_name)),
            (String::from_str("year"), number_value(year)),
            (String::from_str("track_number"), number_value(track_number)),
            (String::from_str("genre"), text_value(&self.genre)),
            (String::from_str("comment"), text_value(&self.comment)),
        ];
        proof {
            assert(entry_models(r@) =~= metadata_entries(*self));
        }
        r
    }

    /// The record as a compact JSON object.
    pub fn to_json(&self) -> (r: String)
        ensures
            r@ == object_text(metadata_entries(*self)),
    {
        render_object(&self.entries())
    }
}

/// Why the tags of a file could not be read: the path asked for and the
/// parser's description of the failure.
pub struct ExtractionError {
    pub path: String,
    pub detail: String,
}

/// The message of an extraction failure.
pub open spec fn failure_message(path: Seq<char>, detail: Seq<char>) -> Seq<char> {
    "failed to read file "@ + path + " - "@ + detail
}

/// The members of the error object written for an extraction failure.
pub open spec fn error_entries(path: Seq<char>, detail: Seq<char>) -> Seq<(Seq<char>, FieldModel)> {
    seq![
        ("type"@, FieldModel::Text("error"@)),
        ("message"@, FieldModel::Text(failure_message(path, detail))),
    ]
}

impl ExtractionError {
    /// The message that names the path and the parser's failure.
    pub fn message(&self) -> (r: String)
        ensures
            r@ == failure_message(self.path@, self.detail@),
    {
        let mut r = String::from_str("failed to read file ");
        r.append(self.path.as_str());
        r.append(" - ");
        r.append(self.detail.as_str());
        r
    }

    /// The error as a compact JSON object of a type and a message.
    pub fn to_json(&self) -> (r: String)
        ensures
            r@ == object_text(error_entries(self.path@, self.detail@)),
    {
        let entries = vec![
            (String::from_str("type"), FieldValue::Text(String::from_str("error"))),
            (String::from_str("message"), FieldValue::Text(self.message())),
        ];
        proof {
            assert(entry_models(entries@) =~= error_entries(self.path@, self.detail@));
        }
        render_object(&entries)
    }
}

/// The outcome of reading one file, given what the tag parser returned for
/// it: the normalized record, or the failure with the path asked for.
pub fn read_metadata(path: &str, parsed: Result<TagFields, String>) -> (r: Result<
    NormalizedMetadata,
    ExtractionError,
>)
    ensures
        match parsed {
            Ok(t) => r matches Ok(m) && normalizes(m, t),
            Err(d) => r matches Err(e) && e.path@ == path@ && e.detail@ == d@,
        },
{
    match parsed {
        Ok(t) => Ok(NormalizedMetadata::from_tags(t)),
        Err(d) => Err(ExtractionError { path: String::from_str(path), detail: d }),
    }
}

/// The command a host application calls for one file: the normalized record
/// as a JSON object, or an error object whose message names the path.
pub fn get_audio_metadata(path: &str, parsed: Result<TagFields, String>) -> (r: Result<
    String,
    String,
>)
    ensures
        match parsed {
            Ok(t) => r matches Ok(j) && j@ == object_text(tag_entries(t)),
            Err(d) => r matches Err(j) && j@ == object_text(error_entries(path@, d@)),
        },
{
    match read_metadata(path, parsed) {
        Ok(m) => {
            proof {
                lemma_entries_of_normalized(m, parsed->Ok_0);
            }
            Ok(m.to_json())
        },
        Err(e) => Err(e.to_json()),
    }
}

proof fn lemma_entries_of_normalized(m: NormalizedMetadata, t: TagFields)
    requires
        normalizes(m, t),
    ensures
        metadata_entries(m) == tag_entries(t),
{
    assert(metadata_entries(m) =~= tag_entries(t));
}

} // verus!
