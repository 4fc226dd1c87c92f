use amusic::decode::search_response;
use amusic::errors::ErrorKind;
use amusic::music::{auth_header, search_query, search_url, term_param, Client};

fn fresh_key_pem() -> String {
    let rng = ring::rand::SystemRandom::new();
    let doc = ring::signature::EcdsaKeyPair::generate_pkcs8(
        &ring::signature::ECDSA_P256_SHA256_FIXED_SIGNING,
        &rng,
    )
    .unwrap();
    pem::encode(&pem::Pem::new("PRIVATE KEY", doc.as_ref()))
}

#[test]
fn terms_join_order_preserving_without_spaces() {
    let terms = vec!["a b".to_owned(), "c".to_owned()];
    assert_eq!(term_param(&terms), "a+b+c");
}

#[test]
fn term_with_many_spaces_has_none_left() {
    let terms = vec!["x  y z".to_owned(), "q r".to_owned()];
    let joined = term_param(&terms);
    assert_eq!(joined, "x++y+z+q+r");
    assert!(!joined.contains(' '));
}

#[test]
fn query_limit_and_types_are_fixed() {
    let terms = vec!["anything at all".to_owned()];
    let q = search_query(&terms);
    assert_eq!(q.len(), 3);
    assert_eq!(q[0].0, "term");
    assert_eq!(q[0].1, "anything+at+all");
    assert_eq!(q[1], ("limit".to_owned(), "1".to_owned()));
    assert_eq!(q[2], ("types".to_owned(), "songs".to_owned()));
}

#[test]
fn search_url_holds_storefront() {
    assert_eq!(
        search_url("us"),
        "https://api.music.apple.com/v1/catalog/us/search"
    );
    assert_eq!(
        search_url("fr"),
        "https://api.music.apple.com/v1/catalog/fr/search"
    );
}

#[test]
fn auth_header_is_bearer() {
    assert_eq!(auth_header("abc.def.ghi"), "Bearer abc.def.ghi");
}

#[test]
fn empty_terms_are_a_caller_error() {
    let client = Client::new(
        "TEAM1".to_owned(),
        "KEY1".to_owned(),
        fresh_key_pem(),
        "us".to_owned(),
    );
    let err = client.search_request(&Vec::new(), 1000).unwrap_err();
    assert_eq!(err.kind, ErrorKind::InvalidArgument);
}

#[test]
fn end_to_end_request_and_stubbed_response() {
    let client = Client::new(
        "TEAM1".to_owned(),
        "KEY1".to_owned(),
        fresh_key_pem(),
        "us".to_owned(),
    );
    let terms = vec!["hello world".to_owned()];
    let req = client.search_request(&terms, 1000).unwrap();
    assert_eq!(req.url, "https://api.music.apple.com/v1/catalog/us/search");
    assert_eq!(req.query[0], ("term".to_owned(), "hello+world".to_owned()));
    assert_eq!(req.query[1], ("limit".to_owned(), "1".to_owned()));
    assert_eq!(req.query[2], ("types".to_owned(), "songs".to_owned()));
    assert!(req.authorization.starts_with("Bearer "));
    let envelope = search_response(200, "{\"songs\":null}").unwrap();
    assert!(envelope.data().is_none());
    assert!(envelope.result().is_none());
    assert!(envelope.errors.is_none());
}

#[test]
fn unicode_terms_keep_their_characters() {
    let terms = vec!["héllo wörld".to_owned()];
    assert_eq!(term_param(&terms), "héllo+wörld");
}

#[test]
fn empty_terms_join_to_separators_only() {
    assert_eq!(term_param(&vec!["".to_owned()]), "");
    assert_eq!(term_param(&vec![" ".to_owned(), "".to_owned()]), "++");
}
