use amusic::decode::{decode_search_body, search_response};
use amusic::errors::ErrorKind;

#[test]
fn missing_songs_field_decodes_to_none() {
    let envelope = search_response(200, "{\"data\":{}}").unwrap();
    let results = envelope.data.as_ref().unwrap();
    assert!(results.songs.is_none());
}

#[test]
fn null_songs_field_decodes_to_none() {
    let envelope = search_response(200, "{\"data\":{\"songs\":null}}").unwrap();
    let results = envelope.data.as_ref().unwrap();
    assert!(results.songs.is_none());
}

#[test]
fn invalid_json_is_a_decode_error() {
    let err = search_response(200, "this is not json").unwrap_err();
    assert_eq!(err.kind, ErrorKind::Decode);
}

#[test]
fn schema_mismatch_is_a_decode_error() {
    let err = search_response(200, "{\"data\":{\"songs\":42}}").unwrap_err();
    assert_eq!(err.kind, ErrorKind::Decode);
    let err = search_response(200, "[1,2,3]").unwrap_err();
    assert_eq!(err.kind, ErrorKind::Decode);
}

#[test]
fn non_success_status_is_a_service_error_and_body_unread() {
    let err = search_response(401, "anything, even garbage {{{").unwrap_err();
    assert_eq!(err.kind, ErrorKind::Service(401));
    let err = search_response(500, "{\"data\":{}}").unwrap_err();
    assert_eq!(err.kind, ErrorKind::Service(500));
}

#[test]
fn full_song_record_decodes() {
    let body = "{\"data\":{\"songs\":[{\"data\":{\"type\":\"songs\",\"attributes\":{\
\"albumName\":\"Album\",\"artistName\":\"Artist\",\"composerName\":\"Composer\",\
\"discNumber\":\"1\",\"genreNames\":[\"Pop\",\"Rock\"],\"isrc\":\"XX123\",\
\"name\":\"Song Name\",\"url\":\"https://example.invalid/song\"}},\
\"href\":\"/v1/catalog/us/songs/1\"}]},\"next\":null}";
    let envelope = decode_search_body(body).unwrap();
    let results = envelope.data.as_ref().unwrap();
    let songs = results.songs.as_ref().unwrap();
    assert_eq!(songs.len(), 1);
    let inner = &songs[0];
    assert_eq!(inner.href.as_deref(), Some("/v1/catalog/us/songs/1"));
    let song = inner.data.as_ref().unwrap();
    assert_eq!(song.type_, "songs");
    let attrs = song.attributes.as_ref().unwrap();
    assert_eq!(attrs.album_name, "Album");
    assert_eq!(attrs.artist_name, "Artist");
    assert_eq!(attrs.composer_name.as_deref(), Some("Composer"));
    assert!(attrs.content_rating.is_none());
    assert_eq!(attrs.disc_number, "1");
    assert!(attrs.duration_in_millis.is_none());
    assert_eq!(attrs.genre_names, vec!["Pop".to_owned(), "Rock".to_owned()]);
    assert_eq!(attrs.isrc, "XX123");
    assert_eq!(attrs.name, "Song Name");
    assert_eq!(attrs.url, "https://example.invalid/song");
}

#[test]
fn partial_song_without_attributes_decodes() {
    let body = "{\"data\":{\"songs\":[{\"data\":{\"type\":\"songs\"}}]}}";
    let envelope = decode_search_body(body).unwrap();
    let songs = envelope.data.as_ref().unwrap().songs.as_ref().unwrap();
    assert!(songs[0].data.as_ref().unwrap().attributes.is_none());
}

#[test]
fn embedded_errors_are_kept_not_collapsed() {
    let body = "{\"errors\":[{\"code\":\"40100\",\"id\":\"abc\",\"status\":\"401\",\
\"title\":\"Unauthorized\",\"detail\":\"expired\",\
\"source\":{\"parameter\":\"term\"}}]}";
    let envelope = decode_search_body(body).unwrap();
    let errors = envelope.errors.as_ref().unwrap();
    assert_eq!(errors.len(), 1);
    assert_eq!(errors[0].code, "40100");
    assert_eq!(errors[0].id, "abc");
    assert_eq!(errors[0].status, "401");
    assert_eq!(errors[0].title, "Unauthorized");
    assert_eq!(errors[0].detail.as_deref(), Some("expired"));
    let source = errors[0].source.as_ref().unwrap();
    assert_eq!(source.parameter.as_deref(), Some("term"));
}

#[test]
fn missing_required_error_field_is_a_decode_error() {
    let body = "{\"errors\":[{\"code\":\"40100\"}]}";
    let err = decode_search_body(body).unwrap_err();
    assert_eq!(err.kind, ErrorKind::Decode);
}
