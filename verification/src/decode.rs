use vstd::prelude::*;

use crate::errors::{Error, ErrorKind};
use crate::music::{
    Response, ResponseError, ResponseErrorSource, ResponseErrorSourceView, ResponseErrorView,
    ResponseView, SearchResults, SearchResultsView, Song, SongAttributes, SongAttributesView,
    SongView,
};

verus! {

#[verifier::external_type_specification]
#[verifier::external_body]
pub struct ExValue(serde_json::Value);

/// A JSON document, read mathematically. Numbers and booleans are read no
/// further than their kind: the catalog schema never takes a value from
/// them, only strings, arrays, objects and null.
pub enum JsonTree {
    Null,
    Truth,
    Number,
    Text(Seq<char>),
    Array(Seq<JsonTree>),
    Object(Map<Seq<char>, JsonTree>),
}

/// What parsing a text yields: the document tree, or nothing when the text
/// is not well-formed JSON. Parsing depends on the text alone.
pub uninterp spec fn json_tree_of(s: Seq<char>) -> Option<JsonTree>;

/// What a parsed value holds, as a document tree.
pub uninterp spec fn tree_of(v: serde_json::Value) -> JsonTree;

/// Whether a text is well-formed JSON.
pub open spec fn json_parses(s: Seq<char>) -> bool {
    json_tree_of(s) is Some
}

/// The named member of an object; nothing on any other kind of value.
pub open spec fn member_of(t: JsonTree, key: Seq<char>) -> Option<JsonTree> {
    match t {
        JsonTree::Object(m) => if m.contains_key(key) {
            Some(m[key])
        } else {
            None
        },
        _ => None,
    }
}

/// Relies on serde_json::from_str over Value: it parses exactly the
/// well-formed JSON texts, a result that depends on the text alone, and the
/// value it returns holds the text's document tree.
#[verifier::external_body]
fn json_parse(s: &str) -> (r: Option<serde_json::Value>)
    ensures
        r is Some <==> json_tree_of(s@) is Some,
        r matches Some(v) ==> tree_of(v) == json_tree_of(s@)->0,
{
    serde_json::from_str::<serde_json::Value>(s).ok()
}

/// Relies on serde_json::Value::get with a string key: the named member when
/// the value is an object that has it, nothing on any other kind of value.
#[verifier::external_body]
fn json_get<'a>(v: &'a serde_json::Value, key: &str) -> (r: Option<&'a serde_json::Value>)
    ensures
        r is Some <==> member_of(tree_of(*v), key@) is Some,
        r matches Some(m) ==> tree_of(*m) == member_of(tree_of(*v), key@)->0,
{
    v.get(key)
}

/// Relies on serde_json::Value::is_object.
#[verifier::external_body]
fn json_is_object(v: &serde_json::Value) -> (r: bool)
    ensures
        r == (tree_of(*v) is Object),
{
    v.is_object()
}

/// Relies on serde_json::Value::is_null.
#[verifier::external_body]
fn json_is_null(v: &serde_json::Value) -> (r: bool)
    ensures
        r == (tree_of(*v) is Null),
{
    v.is_null()
}

/// Relies on serde_json::Value::as_str: the text of a string value, nothing
/// on any other kind of value.
#[verifier::external_body]
fn json_as_string(v: &serde_json::Value) -> (r: Option<String>)
    ensures
        r is Some <==> tree_of(*v) is Text,
        r matches Some(s) ==> s@ == tree_of(*v)->Text_0,
{
    match v.as_str() {
        Some(s) => Some(s.to_owned()),
        None => None,
    }
}

/// Relies on serde_json::Value::as_array: the elements of an array value, in
/// order, nothing on any other kind of value.
#[verifier::external_body]
fn json_as_array<'a>(v: &'a serde_json::Value) -> (r: Option<&'a Vec<serde_json::Value>>)
    ensures
        r is Some <==> tree_of(*v) is Array,
        r matches Some(a) ==> a@.len() == tree_of(*v)->Array_0.len() && forall|i: int|
            0 <= i < a@.len() ==> tree_of(#[trigger] a@[i]) == tree_of(*v)->Array_0[i],
{
    v.as_array()
}

/// An optional string member: absent or null stands for nothing; any other
/// non-string member refuses the object.
pub open spec fn opt_string_member(t: JsonTree, key: Seq<char>) -> Option<Option<Seq<char>>> {
    match member_of(t, key) {
        None => Some(None),
        Some(m) => match m {
            JsonTree::Null => Some(None),
            JsonTree::Text(s) => Some(Some(s)),
            _ => None,
        },
    }
}

/// A member that must be present and a string.
pub open spec fn req_string_member(t: JsonTree, key: Seq<char>) -> Option<Seq<char>> {
    match member_of(t, key) {
        Some(JsonTree::Text(s)) => Some(s),
        _ => None,
    }
}

/// A member that must be present and an array of strings.
pub open spec fn string_array_member(t: JsonTree, key: Seq<char>) -> Option<Seq<Seq<char>>> {
    match member_of(t, key) {
        Some(JsonTree::Array(a)) => if forall|i: int|
            0 <= i < a.len() ==> (#[trigger] a[i]) is Text {
            Some(Seq::new(a.len(), |i: int| a[i]->Text_0))
        } else {
            None
        },
        _ => None,
    }
}

/// An optional structured member: absent or null stands for nothing; a
/// present one must satisfy the given reading.
pub open spec fn opt_member<A>(
    t: JsonTree,
    key: Seq<char>,
    f: spec_fn(JsonTree) -> Option<A>,
) -> Option<Option<A>> {
    match member_of(t, key) {
        None => Some(None),
        Some(m) => if m is Null {
            Some(None)
        } else {
            match f(m) {
                Some(x) => Some(Some(x)),
                None => None,
            }
        },
    }
}

/// The descriptive song fields a tree reads as, when it matches the schema.
pub open spec fn attrs_of_tree(t: JsonTree) -> Option<SongAttributesView> {
    if !(t is Object) {
        None
    } else {
        let album_name = req_string_member(t, "albumName"@);
        let artist_name = req_string_member(t, "artistName"@);
        let composer_name = opt_string_member(t, "composerName"@);
        let content_rating = opt_string_member(t, "contentRating"@);
        let disc_number = req_string_member(t, "discNumber"@);
        let duration_in_millis = opt_string_member(t, "durationInMillis"@);
        let genre_names = string_array_member(t, "genreNames"@);
        let isrc = req_string_member(t, "isrc"@);
        let name = req_string_member(t, "name"@);
        let url = req_string_member(t, "url"@);
        if album_name is Some && artist_name is Some && composer_name is Some && content_rating
            is Some && disc_number is Some && duration_in_millis is Some && genre_names is Some
            && isrc is Some && name is Some && url is Some {
            Some(
                SongAttributesView {
                    album_name: album_name->0,
                    artist_name: artist_name->0,
                    composer_name: composer_name->0,
                    content_rating: content_rating->0,
                    disc_number: disc_number->0,
                    duration_in_millis: duration_in_millis->0,
                    genre_names: genre_names->0,
                    isrc: isrc->0,
                    name: name->0,
                    url: url->0,
                },
            )
        } else {
            None
        }
    }
}

/// The song record a tree reads as, when it matches the schema.
pub open spec fn song_of_tree(t: JsonTree) -> Option<SongView> {
    if !(t is Object) {
        None
    } else {
        let type_ = req_string_member(t, "type"@);
        let attributes = opt_member(t, "attributes"@, |m: JsonTree| attrs_of_tree(m));
        if type_ is Some && attributes is Some {
            Some(SongView { type_: type_->0, attributes: attributes->0 })
        } else {
            None
        }
    }
}

/// The error source a tree reads as, when it matches the schema.
pub open spec fn source_of_tree(t: JsonTree) -> Option<ResponseErrorSourceView> {
    if !(t is Object) {
        None
    } else {
        match opt_string_member(t, "parameter"@) {
            Some(p) => Some(ResponseErrorSourceView { parameter: p }),
            None => None,
        }
    }
}

/// The service-reported error a tree reads as, when it matches the schema.
pub open spec fn error_of_tree(t: JsonTree) -> Option<ResponseErrorView> {
    if !(t is Object) {
        None
    } else {
        let code = req_string_member(t, "code"@);
        let detail = opt_string_member(t, "detail"@);
        let id = req_string_member(t, "id"@);
        let source = opt_member(t, "source"@, |m: JsonTree| source_of_tree(m));
        let status = req_string_member(t, "status"@);
        let title = req_string_member(t, "title"@);
        if code is Some && detail is Some && id is Some && source is Some && status is Some
            && title is Some {
            Some(
                ResponseErrorView {
                    code: code->0,
                    detail: detail->0,
                    id: id->0,
                    source: source->0,
                    status: status->0,
                    title: title->0,
                },
            )
        } else {
            None
        }
    }
}

/// The error list an envelope's errors member reads as: absent or null
/// stands for none; a present one must be an array of schema-matching
/// errors, kept verbatim and in order.
pub open spec fn errors_of_tree(t: JsonTree) -> Option<Option<Seq<ResponseErrorView>>> {
    match member_of(t, "errors"@) {
        None => Some(None),
        Some(m) => if m is Null {
            Some(None)
        } else {
            match m {
                JsonTree::Array(a) => if forall|i: int|
                    0 <= i < a.len() ==> error_of_tree(#[trigger] a[i]) is Some {
                    Some(Some(Seq::new(a.len(), |i: int| error_of_tree(a[i])->0)))
                } else {
                    None
                },
                _ => None,
            }
        },
    }
}

/// The envelope a tree reads as, around a reading of the payload.
pub open spec fn envelope_of_tree<A>(
    t: JsonTree,
    f: spec_fn(JsonTree) -> Option<A>,
) -> Option<ResponseView<A>> {
    if !(t is Object) {
        None
    } else {
        let data = opt_member(t, "data"@, f);
        let result = opt_member(t, "result"@, f);
        let errors = errors_of_tree(t);
        let href = opt_string_member(t, "href"@);
        let next = opt_string_member(t, "next"@);
        if data is Some && result is Some && errors is Some && href is Some && next is Some {
            Some(
                ResponseView {
                    data: data->0,
                    errors: errors->0,
                    href: href->0,
                    next: next->0,
                    result: result->0,
                },
            )
        } else {
            None
        }
    }
}

/// The song envelope a tree reads as.
pub open spec fn song_envelope_of_tree(t: JsonTree) -> Option<ResponseView<SongView>> {
    envelope_of_tree(t, |m: JsonTree| song_of_tree(m))
}

/// The search results a tree reads as: a missing or null songs member is no
/// songs at all, not an error.
pub open spec fn results_of_tree(t: JsonTree) -> Option<SearchResultsView> {
    if !(t is Object) {
        None
    } else {
        match member_of(t, "songs"@) {
            None => Some(SearchResultsView { songs: None }),
            Some(m) => if m is Null {
                Some(SearchResultsView { songs: None })
            } else {
                match m {
                    JsonTree::Array(a) => if forall|i: int|
                        0 <= i < a.len() ==> song_envelope_of_tree(#[trigger] a[i]) is Some {
                        Some(
                            SearchResultsView {
                                songs: Some(
                                    Seq::new(a.len(), |i: int| song_envelope_of_tree(a[i])->0),
                                ),
                            },
                        )
                    } else {
                        None
                    },
                    _ => None,
                }
            },
        }
    }
}

/// The search envelope a tree reads as: what a success body must decode to.
pub open spec fn search_envelope_of_tree(t: JsonTree) -> Option<ResponseView<SearchResultsView>> {
    envelope_of_tree(t, |m: JsonTree| results_of_tree(m))
}

/// Law: a results object without a songs member, or with a null one, reads
/// as no songs at all — success, not an error.
pub proof fn lemma_missing_songs_is_none(t: JsonTree)
    requires
        t is Object,
        member_of(t, "songs"@) is None || member_of(t, "songs"@) == Some(JsonTree::Null),
    ensures
        results_of_tree(t) == Some(SearchResultsView { songs: None }),
{
}

/// The view of an optional string.
pub open spec fn opt_view(s: Option<String>) -> Option<Seq<char>> {
    match s {
        Some(x) => Some(x@),
        None => None,
    }
}

/// The one error a schema mismatch produces.
fn decode_error() -> (r: Error)
    ensures
        r == (Error { kind: ErrorKind::Decode }),
{
    Error::new(ErrorKind::Decode)
}

/// A member that may be absent or null; present values must be strings.
fn get_opt_string(v: &serde_json::Value, key: &str) -> (r: Result<Option<String>, Error>)
    ensures
        r is Ok <==> opt_string_member(tree_of(*v), key@) is Some,
        r matches Ok(s) ==> opt_view(s) == opt_string_member(tree_of(*v), key@)->0,
        r is Err ==> r->Err_0 == (Error { kind: ErrorKind::Decode }),
{
    match json_get(v, key) {
        None => Ok(None),
        Some(m) => {
            if json_is_null(m) {
                Ok(None)
            } else {
                match json_as_string(m) {
                    Some(s) => Ok(Some(s)),
                    None => Err(decode_error()),
                }
            }
        },
    }
}

/// A member that must be present and a string.
fn get_req_string(v: &serde_json::Value, key: &str) -> (r: Result<String, Error>)
    ensures
        r is Ok <==> req_string_member(tree_of(*v), key@) is Some,
        r matches Ok(s) ==> s@ == req_string_member(tree_of(*v), key@)->0,
        r is Err ==> r->Err_0 == (Error { kind: ErrorKind::Decode }),
{
    match json_get(v, key) {
        None => Err(decode_error()),
        Some(m) => match json_as_string(m) {
            Some(s) => Ok(s),
            None => Err(decode_error()),
        },
    }
}

/// A member that must be present and an array of strings.
#[verifier::loop_isolation(false)]
fn get_string_array(v: &serde_json::Value, key: &str) -> (r: Result<Vec<String>, Error>)
    ensures
        r is Ok <==> string_array_member(tree_of(*v), key@) is Some,
        r matches Ok(a) ==> a.deep_view() == string_array_member(tree_of(*v), key@)->0,
        r is Err ==> r->Err_0 == (Error { kind: ErrorKind::Decode }),
{
    let m = match json_get(v, key) {
        None => {
            return Err(decode_error());
        },
        Some(m) => m,
    };
    let arr = match json_as_array(m) {
        Some(a) => a,
        None => {
            return Err(decode_error());
        },
    };
    let ghost ts = tree_of(*m)->Array_0;
    let mut out: Vec<String> = Vec::new();
    let mut i: usize = 0;
    while i < arr.len()
        invariant
            arr@.len() == ts.len(),
            forall|k: int| 0 <= k < arr@.len() ==> tree_of(#[trigger] arr@[k]) == ts[k],
            i <= arr@.len(),
            out@.len() == i,
            forall|k: int|
                0 <= k < i ==> (#[trigger] ts[k]) is Text && out@[k]@ == ts[k]->Text_0,
        decreases arr@.len() - i,
    {
        match json_as_string(&arr[i]) {
            Some(s) => out.push(s),
            None => {
                proof {
                    assert(!(ts[i as int] is Text));
                }
                return Err(decode_error());
            },
        }
        i = i + 1;
    }
    proof {
        assert(out.deep_view() =~= Seq::new(ts.len(), |i: int| ts[i]->Text_0));
    }
    Ok(out)
}

/// The descriptive fields of a song, from their object.
fn song_attributes_from(v: &serde_json::Value) -> (r: Result<SongAttributes, Error>)
    ensures
        r is Ok <==> attrs_of_tree(tree_of(*v)) is Some,
        r matches Ok(x) ==> x@ == attrs_of_tree(tree_of(*v))->0,
        r is Err ==> r->Err_0 == (Error { kind: ErrorKind::Decode }),
{
    if !json_is_object(v) {
        return Err(decode_error());
    }
    let album_name = get_req_string(v, "albumName")?;
    let artist_name = get_req_string(v, "artistName")?;
    let composer_name = get_opt_string(v, "composerName")?;
    let content_rating = get_opt_string(v, "contentRating")?;
    let disc_number = get_req_string(v, "discNumber")?;
    let duration_in_millis = get_opt_string(v, "durationInMillis")?;
    let genre_names = get_string_array(v, "genreNames")?;
    let isrc = get_req_string(v, "isrc")?;
    let name = get_req_string(v, "name")?;
    let url = get_req_string(v, "url")?;
    Ok(
        SongAttributes {
            album_name,
            artist_name,
            composer_name,
            content_rating,
            disc_number,
            duration_in_millis,
            genre_names,
            isrc,
            name,
            url,
        },
    )
}

/// A song record: its type tag and, when present, its attributes.
fn song_from(v: &serde_json::Value) -> (r: Result<Song, Error>)
    ensures
        r is Ok <==> song_of_tree(tree_of(*v)) is Some,
        r matches Ok(x) ==> x@ == song_of_tree(tree_of(*v))->0,
        r is Err ==> r->Err_0 == (Error { kind: ErrorKind::Decode }),
{
    if !json_is_object(v) {
        return Err(decode_error());
    }
    let type_ = get_req_string(v, "type")?;
    let attributes = match json_get(v, "attributes") {
        None => None,
        Some(m) => {
            if json_is_null(m) {
                None
            } else {
                Some(song_attributes_from(m)?)
            }
        },
    };
    Ok(Song { type_, attributes })
}

/// One service-reported error, from its object.
fn response_error_from(v: &serde_json::Value) -> (r: Result<ResponseError, Error>)
    ensures
        r is Ok <==> error_of_tree(tree_of(*v)) is Some,
        r matches Ok(x) ==> x@ == error_of_tree(tree_of(*v))->0,
        r is Err ==> r->Err_0 == (Error { kind: ErrorKind::Decode }),
{
    if !json_is_object(v) {
        return Err(decode_error());
    }
    let code = get_req_string(v, "code")?;
    let detail = get_opt_string(v, "detail")?;
    let id = get_req_string(v, "id")?;
    let source = match json_get(v, "source") {
        None => None,
        Some(m) => {
            if json_is_null(m) {
                None
            } else if !json_is_object(m) {
                return Err(decode_error());
            } else {
                let parameter = get_opt_string(m, "parameter")?;
                Some(ResponseErrorSource { parameter })
            }
        },
    };
    let status = get_req_string(v, "status")?;
    let title = get_req_string(v, "title")?;
    Ok(ResponseError { code, detail, id, source, status, title })
}

/// The optional error list of an envelope, kept verbatim and in order.
#[verifier::loop_isolation(false)]
fn errors_from(v: &serde_json::Value) -> (r: Result<Option<Vec<ResponseError>>, Error>)
    ensures
        r is Ok <==> errors_of_tree(tree_of(*v)) is Some,
        r matches Ok(es) ==> (match es {
            Some(es) => Some(es@.map_values(|e: ResponseError| e@)),
            None => None,
        }) == errors_of_tree(tree_of(*v))->0,
        r is Err ==> r->Err_0 == (Error { kind: ErrorKind::Decode }),
{
    let m = match json_get(v, "errors") {
        None => {
            return Ok(None);
        },
        Some(m) => m,
    };
    if json_is_null(m) {
        return Ok(None);
    }
    let arr = match json_as_array(m) {
        Some(a) => a,
        None => {
            return Err(decode_error());
        },
    };
    let ghost ts = tree_of(*m)->Array_0;
    let mut out: Vec<ResponseError> = Vec::new();
    let mut i: usize = 0;
    while i < arr.len()
        invariant
            arr@.len() == ts.len(),
            forall|k: int| 0 <= k < arr@.len() ==> tree_of(#[trigger] arr@[k]) == ts[k],
            i <= arr@.len(),
            out@.len() == i,
            forall|k: int|
                0 <= k < i ==> error_of_tree(#[trigger] ts[k]) is Some && out@[k]@ == error_of_tree(
                    ts[k],
                )->0,
        decreases arr@.len() - i,
    {
        match response_error_from(&arr[i]) {
            Ok(e) => out.push(e),
            Err(e) => {
                proof {
                    assert(!(error_of_tree(ts[i as int]) is Some));
                }
                return Err(e);
            },
        }
        i = i + 1;
    }
    proof {
        assert(out@.map_values(|e: ResponseError| e@) =~= Seq::new(
            ts.len(),
            |i: int| error_of_tree(ts[i])->0,
        ));
    }
    Ok(Some(out))
}

/// A song envelope, as the entries of a search's song list come.
fn song_envelope_from(v: &serde_json::Value) -> (r: Result<Response<Song>, Error>)
    ensures
        r is Ok <==> song_envelope_of_tree(tree_of(*v)) is Some,
        r matches Ok(x) ==> x@ == song_envelope_of_tree(tree_of(*v))->0,
        r is Err ==> r->Err_0 == (Error { kind: ErrorKind::Decode }),
{
    if !json_is_object(v) {
        return Err(decode_error());
    }
    let data = match json_get(v, "data") {
        None => None,
        Some(m) => {
            if json_is_null(m) {
                None
            } else {
                Some(song_from(m)?)
            }
        },
    };
    let result = match json_get(v, "result") {
        None => None,
        Some(m) => {
            if json_is_null(m) {
                None
            } else {
                Some(song_from(m)?)
            }
        },
    };
    let errors = errors_from(v)?;
    let href = get_opt_string(v, "href")?;
    let next = get_opt_string(v, "next")?;
    Ok(Response { data, errors, href, next, result })
}

/// The search results: a song list when one came back, nothing when the
/// member is absent or null.
#[verifier::loop_isolation(false)]
fn search_results_from(v: &serde_json::Value) -> (r: Result<SearchResults, Error>)
    ensures
        r is Ok <==> results_of_tree(tree_of(*v)) is Some,
        r matches Ok(x) ==> x@ == results_of_tree(tree_of(*v))->0,
        r is Err ==> r->Err_0 == (Error { kind: ErrorKind::Decode }),
{
    if !json_is_object(v) {
        return Err(decode_error());
    }
    let m = match json_get(v, "songs") {
        None => {
            return Ok(SearchResults { songs: None });
        },
        Some(m) => m,
    };
    if json_is_null(m) {
        return Ok(SearchResults { songs: None });
    }
    let arr = match json_as_array(m) {
        Some(a) => a,
        None => {
            return Err(decode_error());
        },
    };
    let ghost ts = tree_of(*m)->Array_0;
    let mut out: Vec<Response<Song>> = Vec::new();
    let mut i: usize = 0;
    while i < arr.len()
        invariant
            arr@.len() == ts.len(),
            forall|k: int| 0 <= k < arr@.len() ==> tree_of(#[trigger] arr@[k]) == ts[k],
            i <= arr@.len(),
            out@.len() == i,
            forall|k: int|
                0 <= k < i ==> song_envelope_of_tree(#[trigger] ts[k]) is Some && out@[k]@
                    == song_envelope_of_tree(ts[k])->0,
        decreases arr@.len() - i,
    {
        match song_envelope_from(&arr[i]) {
            Ok(e) => out.push(e),
            Err(e) => {
                proof {
                    assert(!(song_envelope_of_tree(ts[i as int]) is Some));
                }
                return Err(e);
            },
        }
        i = i + 1;
    }
    proof {
        assert(out@.map_values(|s: Response<Song>| s@) =~= Seq::new(
            ts.len(),
            |i: int| song_envelope_of_tree(ts[i])->0,
        ));
    }
    Ok(SearchResults { songs: Some(out) })
}

/// Decodes a success body into the response envelope: it succeeds exactly on
/// well-formed JSON matching the envelope schema and then returns the
/// envelope the body's document tree reads as; everything else is a decode
/// failure and nothing else.
pub fn decode_search_body(body: &str) -> (r: Result<Response<SearchResults>, Error>)
    ensures
        r is Ok <==> json_tree_of(body@) is Some && search_envelope_of_tree(
            json_tree_of(body@)->0,
        ) is Some,
        r matches Ok(env) ==> env@ == search_envelope_of_tree(json_tree_of(body@)->0)->0,
        r is Err ==> r->Err_0 == (Error { kind: ErrorKind::Decode }),
{
    let v = match json_parse(body) {
        Some(v) => v,
        None => {
            return Err(decode_error());
        },
    };
    if !json_is_object(&v) {
        return Err(decode_error());
    }
    let data = match json_get(&v, "data") {
        None => None,
        Some(m) => {
            if json_is_null(m) {
                None
            } else {
                Some(search_results_from(m)?)
            }
        },
    };
    let result = match json_get(&v, "result") {
        None => None,
        Some(m) => {
            if json_is_null(m) {
                None
            } else {
                Some(search_results_from(m)?)
            }
        },
    };
    let errors = errors_from(&v)?;
    let href = get_opt_string(&v, "href")?;
    let next = get_opt_string(&v, "next")?;
    Ok(Response { data, errors, href, next, result })
}

/// Classifies one finished exchange: a non-success status is a service
/// failure with that very status and the body stays unread; a success status
/// has its body decoded, succeeding exactly on schema-matching bodies, where
/// failure means the body did not parse or did not match.
pub fn search_response(status: u16, body: &str) -> (r: Result<Response<SearchResults>, Error>)
    ensures
        !(200 <= status < 300) ==> r == Err::<Response<SearchResults>, Error>(
            Error { kind: ErrorKind::Service(status) },
        ),
        200 <= status < 300 ==> (r is Ok <==> json_tree_of(body@) is Some
            && search_envelope_of_tree(json_tree_of(body@)->0) is Some),
        200 <= status < 300 ==> (r matches Ok(env) ==> env@ == search_envelope_of_tree(
            json_tree_of(body@)->0,
        )->0),
        200 <= status < 300 ==> (r is Err ==> r->Err_0 == (Error { kind: ErrorKind::Decode })),
        200 <= status < 300 && !json_parses(body@) ==> r == Err::<Response<SearchResults>, Error>(
            Error { kind: ErrorKind::Decode },
        ),
{
    if status < 200 || status >= 300 {
        return Err(Error::new(ErrorKind::Service(status)));
    }
    decode_search_body(body)
}

} // verus!
