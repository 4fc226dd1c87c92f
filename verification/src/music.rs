use vstd::prelude::*;

use crate::errors::{Error, ErrorKind};
use crate::text::{append_str, chars_to_string, valid_claim_str};
use crate::token::{
    claims_json, header_json, issue_token, pem_decoded, token_view, TOKEN_DURATION_IN_SECS,
};
use vstd::string::StrSliceExecFns;

verus! {

/// Where inside the request a service-reported error points.
#[derive(Debug)]
pub struct ResponseErrorSource {
    pub parameter: Option<String>,
}

/// One unit of failure that the service reports inside a response body.
#[derive(Debug)]
pub struct ResponseError {
    pub code: String,
    pub detail: Option<String>,
    pub id: String,
    pub source: Option<ResponseErrorSource>,
    pub status: String,
    pub title: String,
}

/// The response envelope: every field is optional because the same shape
/// serves list endpoints, single-resource endpoints and error-carrying
/// success responses.
#[derive(Debug)]
pub struct Response<T> {
    pub data: Option<T>,
    pub errors: Option<Vec<ResponseError>>,
    pub href: Option<String>,
    pub next: Option<String>,
    pub result: Option<T>,
}

impl<T> Response<T> {
    /// The data payload, when the endpoint filled it.
    pub fn data(&self) -> (r: Option<&T>)
        ensures
            r is Some <==> self.data is Some,
            r matches Some(v) ==> self.data == Some(*v),
    {
        self.data.as_ref()
    }

    /// The result payload, when the endpoint filled it.
    pub fn result(&self) -> (r: Option<&T>)
        ensures
            r is Some <==> self.result is Some,
            r matches Some(v) ==> self.result == Some(*v),
    {
        self.result.as_ref()
    }
}

/// What a catalog search yields: the matched songs, when any came back.
#[derive(Debug)]
pub struct SearchResults {
    pub songs: Option<Vec<Response<Song>>>,
}

/// One catalog song record; absent attributes signal a placeholder record.
#[derive(Debug)]
pub struct Song {
    pub type_: String,
    pub attributes: Option<SongAttributes>,
}

/// The descriptive fields of a song; several are optional because the
/// service fills them unevenly.
#[derive(Debug)]
pub struct SongAttributes {
    pub album_name: String,
    pub artist_name: String,
    pub composer_name: Option<String>,
    pub content_rating: Option<String>,
    pub disc_number: String,
    pub duration_in_millis: Option<String>,
    pub genre_names: Vec<String>,
    pub isrc: String,
    pub name: String,
    pub url: String,
}

/// A term character with spaces turned into pluses.
pub open spec fn plus_of(c: char) -> char {
    if c == ' ' {
        '+'
    } else {
        c
    }
}

/// A term with every space turned into a plus.
pub open spec fn plusified(s: Seq<char>) -> Seq<char> {
    s.map_values(|c: char| plus_of(c))
}

/// The terms joined with pluses, each with its spaces turned into pluses,
/// in the order given.
pub open spec fn joined_terms(ts: Seq<Seq<char>>) -> Seq<char>
    decreases ts.len(),
{
    if ts.len() == 0 {
        seq![]
    } else if ts.len() == 1 {
        plusified(ts[0])
    } else {
        plusified(ts[0]) + seq!['+'] + joined_terms(ts.drop_first())
    }
}

/// Law: the joined term text never carries a literal space, whatever the
/// terms hold.
pub proof fn lemma_joined_terms_no_space(ts: Seq<Seq<char>>)
    ensures
        forall|i: int| 0 <= i < joined_terms(ts).len() ==> #[trigger] joined_terms(ts)[i] != ' ',
    decreases ts.len(),
{
    if ts.len() > 1 {
        lemma_joined_terms_no_space(ts.drop_first());
        let head = plusified(ts[0]) + seq!['+'];
        assert(joined_terms(ts) == head + joined_terms(ts.drop_first()));
        assert forall|i: int| 0 <= i < joined_terms(ts).len() implies #[trigger] joined_terms(
            ts,
        )[i] != ' ' by {
            if i >= head.len() {
                assert(joined_terms(ts)[i] == joined_terms(ts.drop_first())[i - head.len()]);
            }
        }
    }
}

/// Joining splits off its last term.
proof fn lemma_joined_terms_snoc(ts: Seq<Seq<char>>, i: int)
    requires
        1 <= i < ts.len(),
    ensures
        joined_terms(ts.take(i + 1)) == joined_terms(ts.take(i)) + seq!['+'] + plusified(ts[i]),
    decreases i,
{
    let a = ts.take(i + 1);
    let b = ts.take(i);
    if i == 1 {
        assert(a.drop_first() =~= seq![ts[1]]);
        assert(joined_terms(a) == plusified(a[0]) + seq!['+'] + joined_terms(a.drop_first()));
        assert(b =~= seq![ts[0]]);
    } else {
        lemma_joined_terms_snoc(ts.drop_first(), i - 1);
        assert(a.drop_first() =~= ts.drop_first().take(i));
        assert(b.drop_first() =~= ts.drop_first().take(i - 1));
        assert(ts.drop_first()[i - 1] == ts[i]);
        assert(joined_terms(a) == plusified(a[0]) + seq!['+'] + joined_terms(a.drop_first()));
        assert(joined_terms(b) == plusified(b[0]) + seq!['+'] + joined_terms(b.drop_first()));
        assert(joined_terms(a) =~= joined_terms(b) + seq!['+'] + plusified(ts[i]));
    }
}

/// Appends a term with its spaces turned into pluses.
fn append_plusified(out: &mut Vec<char>, t: &str)
    ensures
        final(out)@ == old(out)@ + plusified(t@),
{
    let n = t.unicode_len();
    let mut i: usize = 0;
    while i < n
        invariant
            n == t@.len(),
            i <= n,
            out@ == old(out)@ + plusified(t@.take(i as int)),
        decreases n - i,
    {
        let c = t.get_char(i);
        if c == ' ' {
            out.push('+');
        } else {
            out.push(c);
        }
        proof {
            assert(out@ =~= old(out)@ + plusified(t@.take(i as int + 1)));
        }
        i = i + 1;
    }
    proof {
        assert(t@.take(n as int) =~= t@);
    }
}

/// Builds the term query value: terms joined by pluses, spaces turned into
/// pluses, order preserved.
pub fn term_param(terms: &Vec<String>) -> (r: String)
    ensures
        r@ == joined_terms(terms.deep_view()),
{
    let ts = Ghost(terms.deep_view());
    let mut v: Vec<char> = Vec::new();
    let mut i: usize = 0;
    while i < terms.len()
        invariant
            ts@ == terms.deep_view(),
            ts@.len() == terms@.len(),
            forall|k: int| 0 <= k < ts@.len() ==> ts@[k] == #[trigger] terms@[k]@,
            i <= terms@.len(),
            v@ == joined_terms(ts@.take(i as int)),
        decreases terms@.len() - i,
    {
        if i > 0 {
            v.push('+');
        }
        append_plusified(&mut v, terms[i].as_str());
        proof {
            if i == 0 {
                assert(ts@.take(1) =~= seq![ts@[0]]);
                assert(v@ =~= joined_terms(ts@.take(1)));
            } else {
                lemma_joined_terms_snoc(ts@, i as int);
            }
        }
        i = i + 1;
    }
    proof {
        assert(ts@.take(terms@.len() as int) =~= ts@);
    }
    chars_to_string(v)
}

/// The search endpoint for a storefront.
pub open spec fn search_url_chars(storefront: Seq<char>) -> Seq<char> {
    "https://api.music.apple.com/v1/catalog/"@ + storefront + "/search"@
}

/// Builds the search endpoint URL for a storefront.
pub fn search_url(storefront: &str) -> (r: String)
    ensures
        r@ == search_url_chars(storefront@),
{
    let mut v: Vec<char> = Vec::new();
    append_str(&mut v, "https://api.music.apple.com/v1/catalog/");
    append_str(&mut v, storefront);
    append_str(&mut v, "/search");
    proof {
        assert(v@ =~= search_url_chars(storefront@));
    }
    chars_to_string(v)
}

/// Builds the three query parameters of a search: the joined terms, the
/// fixed limit of one result, and the fixed songs type.
pub fn search_query(terms: &Vec<String>) -> (q: Vec<(String, String)>)
    ensures
        q@.len() == 3,
        q@[0].0@ == "term"@ && q@[0].1@ == joined_terms(terms.deep_view()),
        q@[1].0@ == "limit"@ && q@[1].1@ == "1"@,
        q@[2].0@ == "types"@ && q@[2].1@ == "songs"@,
{
    let mut q: Vec<(String, String)> = Vec::new();
    q.push(("term".to_owned(), term_param(terms)));
    q.push(("limit".to_owned(), "1".to_owned()));
    q.push(("types".to_owned(), "songs".to_owned()));
    q
}

/// Builds the bearer authorization header value for a credential.
pub fn auth_header(token: &str) -> (r: String)
    ensures
        r@ == "Bearer "@ + token@,
{
    let mut v: Vec<char> = Vec::new();
    append_str(&mut v, "Bearer ");
    append_str(&mut v, token);
    chars_to_string(v)
}

/// Everything a transport needs to perform one authenticated search call.
#[derive(Debug)]
pub struct SearchRequest {
    pub url: String,
    pub query: Vec<(String, String)>,
    pub authorization: String,
}

/// The signing identity and storefront a client works with.
#[derive(Debug)]
pub struct Client {
    pub team_id: String,
    pub key_id: String,
    pub key_secret_pem: String,
    pub storefront: String,
}

impl Client {
    /// A client over the given identity.
    pub fn new(team_id: String, key_id: String, key_secret_pem: String, storefront: String) -> (c:
        Client)
        ensures
            c == (Client { team_id, key_id, key_secret_pem, storefront }),
    {
        Client { team_id, key_id, key_secret_pem, storefront }
    }

    /// Issues a signed credential whose claims carry this client's issuer,
    /// the given time as issued-at, and an expiry exactly one hour later.
    pub fn generate_token(&self, now: u64) -> (r: Result<String, Error>)
        requires
            now + TOKEN_DURATION_IN_SECS <= u64::MAX,
        ensures
            (valid_claim_str(self.team_id@) && valid_claim_str(self.key_id@)) <==> !(r
                == Err::<String, Error>(Error { kind: ErrorKind::Claim })),
            valid_claim_str(self.team_id@) && valid_claim_str(self.key_id@) ==> (pem_decoded(
                self.key_secret_pem@,
            ) is None <==> r == Err::<String, Error>(Error { kind: ErrorKind::Key })),
            r is Err ==> (r->Err_0.kind == ErrorKind::Claim || r->Err_0.kind == ErrorKind::Key
                || r->Err_0.kind == ErrorKind::Signing),
            pem_decoded(self.key_secret_pem@) is None ==> r is Err && r->Err_0.kind
                != ErrorKind::Signing,
            r matches Ok(t) ==> exists|sig: Seq<u8>|
                sig.len() == 64 && t@ == token_view(
                    header_json(self.key_id@),
                    claims_json(
                        self.team_id@,
                        now as int,
                        now as int + TOKEN_DURATION_IN_SECS as int,
                    ),
                    sig,
                ),
    {
        issue_token(
            self.team_id.as_str(),
            self.key_id.as_str(),
            self.key_secret_pem.as_str(),
            now,
        )
    }

    /// Builds the one authenticated search request: endpoint URL from the
    /// storefront, the three query parameters, and a bearer credential for
    /// the given time. An empty term sequence is a caller error.
    pub fn search_request(&self, terms: &Vec<String>, now: u64) -> (r: Result<
        SearchRequest,
        Error,
    >)
        requires
            now + TOKEN_DURATION_IN_SECS <= u64::MAX,
        ensures
            terms@.len() == 0 <==> r == Err::<SearchRequest, Error>(
                Error { kind: ErrorKind::InvalidArgument },
            ),
            r is Err ==> (r->Err_0.kind == ErrorKind::InvalidArgument || r->Err_0.kind
                == ErrorKind::Claim || r->Err_0.kind == ErrorKind::Key || r->Err_0.kind
                == ErrorKind::Signing),
            terms@.len() > 0 ==> ((valid_claim_str(self.team_id@) && valid_claim_str(self.key_id@))
                <==> !(r == Err::<SearchRequest, Error>(Error { kind: ErrorKind::Claim }))),
            terms@.len() > 0 && valid_claim_str(self.team_id@) && valid_claim_str(self.key_id@)
                ==> (pem_decoded(self.key_secret_pem@) is None <==> r == Err::<
                SearchRequest,
                Error,
            >(Error { kind: ErrorKind::Key })),
            r matches Ok(req) ==> {
                &&& req.url@ == search_url_chars(self.storefront@)
                &&& req.query@.len() == 3
                &&& req.query@[0].0@ == "term"@ && req.query@[0].1@ == joined_terms(
                    terms.deep_view(),
                )
                &&& req.query@[1].0@ == "limit"@ && req.query@[1].1@ == "1"@
                &&& req.query@[2].0@ == "types"@ && req.query@[2].1@ == "songs"@
                &&& exists|sig: Seq<u8>|
                    sig.len() == 64 && req.authorization@ == "Bearer "@ + token_view(
                        header_json(self.key_id@),
                        claims_json(
                            self.team_id@,
                            now as int,
                            now as int + TOKEN_DURATION_IN_SECS as int,
                        ),
                        sig,
                    )
            },
    {
        if terms.len() == 0 {
            return Err(Error::new(ErrorKind::InvalidArgument));
        }
        let token = match self.generate_token(now) {
            Ok(t) => t,
            Err(e) => {
                return Err(e);
            },
        };
        let url = search_url(self.storefront.as_str());
        let query = search_query(terms);
        let authorization = auth_header(token.as_str());
        Ok(SearchRequest { url, query, authorization })
    }
}


/// The mathematical reading of a service-error source.
pub struct ResponseErrorSourceView {
    pub parameter: Option<Seq<char>>,
}

impl View for ResponseErrorSource {
    type V = ResponseErrorSourceView;

    open spec fn view(&self) -> ResponseErrorSourceView {
        ResponseErrorSourceView {
            parameter: match self.parameter {
                Some(s) => Some(s@),
                None => None,
            },
        }
    }
}

/// The mathematical reading of one service-reported error.
pub struct ResponseErrorView {
    pub code: Seq<char>,
    pub detail: Option<Seq<char>>,
    pub id: Seq<char>,
    pub source: Option<ResponseErrorSourceView>,
    pub status: Seq<char>,
    pub title: Seq<char>,
}

impl View for ResponseError {
    type V = ResponseErrorView;

    open spec fn view(&self) -> ResponseErrorView {
        ResponseErrorView {
            code: self.code@,
            detail: match self.detail {
                Some(s) => Some(s@),
                None => None,
            },
            id: self.id@,
            source: match self.source {
                Some(s) => Some(s@),
                None => None,
            },
            status: self.status@,
            title: self.title@,
        }
    }
}

/// The mathematical reading of a response envelope.
pub struct ResponseView<D> {
    pub data: Option<D>,
    pub errors: Option<Seq<ResponseErrorView>>,
    pub href: Option<Seq<char>>,
    pub next: Option<Seq<char>>,
    pub result: Option<D>,
}

impl<T: View> View for Response<T> {
    type V = ResponseView<T::V>;

    open spec fn view(&self) -> ResponseView<T::V> {
        ResponseView {
            data: match self.data {
                Some(x) => Some(x@),
                None => None,
            },
            errors: match self.errors {
                Some(es) => Some(es@.map_values(|e: ResponseError| e@)),
                None => None,
            },
            href: match self.href {
                Some(s) => Some(s@),
                None => None,
            },
            next: match self.next {
                Some(s) => Some(s@),
                None => None,
            },
            result: match self.result {
                Some(x) => Some(x@),
                None => None,
            },
        }
    }
}

/// The mathematical reading of a song's attributes.
pub struct SongAttributesView {
    pub album_name: Seq<char>,
    pub artist_name: Seq<char>,
    pub composer_name: Option<Seq<char>>,
    pub content_rating: Option<Seq<char>>,
    pub disc_number: Seq<char>,
    pub duration_in_millis: Option<Seq<char>>,
    pub genre_names: Seq<Seq<char>>,
    pub isrc: Seq<char>,
    pub name: Seq<char>,
    pub url: Seq<char>,
}

impl View for SongAttributes {
    type V = SongAttributesView;

    open spec fn view(&self) -> SongAttributesView {
        SongAttributesView {
            album_name: self.album_name@,
            artist_name: self.artist_name@,
            composer_name: match self.composer_name {
                Some(s) => Some(s@),
                None => None,
            },
            content_rating: match self.content_rating {
                Some(s) => Some(s@),
                None => None,
            },
            disc_number: self.disc_number@,
            duration_in_millis: match self.duration_in_millis {
                Some(s) => Some(s@),
                None => None,
            },
            genre_names: self.genre_names.deep_view(),
            isrc: self.isrc@,
            name: self.name@,
            url: self.url@,
        }
    }
}

/// The mathematical reading of one song record.
pub struct SongView {
    pub type_: Seq<char>,
    pub attributes: Option<SongAttributesView>,
}

impl View for Song {
    type V = SongView;

    open spec fn view(&self) -> SongView {
        SongView {
            type_: self.type_@,
            attributes: match self.attributes {
                Some(a) => Some(a@),
                None => None,
            },
        }
    }
}

/// The mathematical reading of the search results.
pub struct SearchResultsView {
    pub songs: Option<Seq<ResponseView<SongView>>>,
}

impl View for SearchResults {
    type V = SearchResultsView;

    open spec fn view(&self) -> SearchResultsView {
        SearchResultsView {
            songs: match self.songs {
                Some(ss) => Some(ss@.map_values(|s: Response<Song>| s@)),
                None => None,
            },
        }
    }
}

} // verus!
