use scaffony::json::{decimal_text, render_object, render_value, FieldValue};
use scaffony::metadata::{
    get_audio_metadata, normalize_text, read_metadata, ExtractionError, NormalizedMetadata,
};
use scaffony::tags::{AlbumInfo, TagFields};

fn full_tags() -> TagFields {
    TagFields {
        title: Some("Song".to_string()),
        artist: Some("Band".to_string()),
        album: Some(AlbumInfo { title: "Record".to_string() }),
        year: Some(1999),
        track_number: Some(3),
        genre: Some("Rock".to_string()),
        comment: Some(String::new()),
    }
}

fn keys_of(json: &str) -> Vec<String> {
    let v: serde_json::Value = serde_json::from_str(json).unwrap();
    let mut keys: Vec<String> = v.as_object().unwrap().keys().cloned().collect();
    keys.sort();
    keys
}

#[test]
fn full_tags_scenario() {
    let r = get_audio_metadata("song.mp3", Ok(full_tags()));
    assert_eq!(
        r,
        Ok("{\"title\":\"Song\",\"artist\":\"Band\",\"album_name\":\"Record\",\"year\":1999,\"track_number\":3,\"genre\":\"Rock\",\"comment\":null}".to_string())
    );
}

#[test]
fn no_tags_scenario() {
    let r = get_audio_metadata("silent.flac", Ok(TagFields::empty()));
    assert_eq!(
        r,
        Ok("{\"title\":null,\"artist\":null,\"album_name\":null,\"year\":null,\"track_number\":null,\"genre\":null,\"comment\":null}".to_string())
    );
}

#[test]
fn missing_file_scenario() {
    let path = "/no/such/dir/missing_track.mp3";
    let detail = match audiotags::Tag::new().read_from_path(path) {
        Ok(_) => panic!("a missing file was read"),
        Err(e) => e.to_string(),
    };
    let r = get_audio_metadata(path, Err(detail.clone()));
    let text = r.unwrap_err();
    let v: serde_json::Value = serde_json::from_str(&text).unwrap();
    assert_eq!(v["type"], "error");
    let message = v["message"].as_str().unwrap();
    assert!(message.contains(path));
    assert!(message.contains(&detail));
    assert!(!detail.is_empty());
}

#[test]
fn error_message_holds_path() {
    let r = read_metadata("a/b c.ogg", Err("unsupported format".to_string()));
    let e = match r {
        Err(e) => e,
        Ok(_) => panic!("expected an error"),
    };
    assert_eq!(e.path, "a/b c.ogg");
    assert_eq!(e.message(), "failed to read file a/b c.ogg - unsupported format");
    assert_eq!(
        e.to_json(),
        "{\"type\":\"error\",\"message\":\"failed to read file a/b c.ogg - unsupported format\"}"
    );
}

#[test]
fn error_object_escapes_path() {
    let e = ExtractionError { path: "say \"hi\".mp3".to_string(), detail: "bad".to_string() };
    let text = e.to_json();
    assert_eq!(text, "{\"type\":\"error\",\"message\":\"failed to read file say \\\"hi\\\".mp3 - bad\"}");
    let v: serde_json::Value = serde_json::from_str(&text).unwrap();
    assert!(v["message"].as_str().unwrap().contains("say \"hi\".mp3"));
}

#[test]
fn record_has_exactly_seven_keys() {
    let expected = vec!["album_name", "artist", "comment", "genre", "title", "track_number", "year"];
    for tags in [full_tags(), TagFields::empty()] {
        let json = get_audio_metadata("x.mp3", Ok(tags)).unwrap();
        assert_eq!(keys_of(&json), expected);
    }
    let m = NormalizedMetadata::from_tags(full_tags());
    let keys: Vec<String> = m.entries().into_iter().map(|(k, _)| k).collect();
    assert_eq!(keys, vec!["title", "artist", "album_name", "year", "track_number", "genre", "comment"]);
}

#[test]
fn blank_strings_become_null() {
    let tags = TagFields {
        title: Some(String::new()),
        artist: None,
        album: None,
        year: None,
        track_number: None,
        genre: Some(String::new()),
        comment: None,
    };
    let m = NormalizedMetadata::from_tags(tags);
    assert_eq!(m.title, None);
    assert_eq!(m.artist, None);
    assert_eq!(m.genre, None);
    assert_eq!(m.comment, None);
    assert_eq!(normalize_text(Some(String::new())), None);
    assert_eq!(normalize_text(None), None);
}

#[test]
fn non_empty_string_kept_verbatim() {
    assert_eq!(normalize_text(Some("Artist X".to_string())), Some("Artist X".to_string()));
    let mut tags = TagFields::empty();
    tags.artist = Some("Artist X".to_string());
    let json = get_audio_metadata("x.mp3", Ok(tags)).unwrap();
    let v: serde_json::Value = serde_json::from_str(&json).unwrap();
    assert_eq!(v["artist"], "Artist X");
}

#[test]
fn empty_album_title_is_kept() {
    let mut tags = TagFields::empty();
    tags.album = Some(AlbumInfo { title: String::new() });
    let m = NormalizedMetadata::from_tags(tags);
    assert_eq!(m.album_name, Some(String::new()));
    assert!(m.to_json().contains("\"album_name\":\"\""));
}

#[test]
fn year_is_an_integer() {
    let mut tags = TagFields::empty();
    tags.year = Some(2020);
    let json = get_audio_metadata("x.mp3", Ok(tags)).unwrap();
    assert!(json.contains("\"year\":2020,"));
    let v: serde_json::Value = serde_json::from_str(&json).unwrap();
    assert_eq!(v["year"].as_i64(), Some(2020));
    assert!(!v["year"].is_string());
}

#[test]
fn numbers_are_not_blanked() {
    let mut tags = TagFields::empty();
    tags.year = Some(0);
    tags.track_number = Some(0);
    let m = NormalizedMetadata::from_tags(tags);
    assert_eq!(m.year, Some(0));
    assert_eq!(m.track_number, Some(0));
    assert!(m.to_json().contains("\"year\":0,\"track_number\":0,"));
}

#[test]
fn decimal_text_values() {
    assert_eq!(decimal_text(0), "0");
    assert_eq!(decimal_text(7), "7");
    assert_eq!(decimal_text(1999), "1999");
    assert_eq!(decimal_text(-42), "-42");
    assert_eq!(decimal_text(65535), "65535");
    assert_eq!(decimal_text(i64::MAX), "9223372036854775807");
    assert_eq!(decimal_text(i64::MIN), "-9223372036854775808");
}

#[test]
fn render_value_forms() {
    assert_eq!(render_value(&FieldValue::Null), "null");
    assert_eq!(render_value(&FieldValue::Integer(-3)), "-3");
    assert_eq!(render_value(&FieldValue::Text("a\"b\\c\n".to_string())), "\"a\\\"b\\\\c\\n\"");
}

#[test]
fn render_object_forms() {
    assert_eq!(render_object(&Vec::new()), "{}");
    let one = vec![("k".to_string(), FieldValue::Integer(1))];
    assert_eq!(render_object(&one), "{\"k\":1}");
    let two = vec![
        ("a".to_string(), FieldValue::Null),
        ("b".to_string(), FieldValue::Text("x".to_string())),
    ];
    assert_eq!(render_object(&two), "{\"a\":null,\"b\":\"x\"}");
}
