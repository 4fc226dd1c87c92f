use amusic::playlist::Entry;

#[test]
fn entry_getters_return_the_fields() {
    let entry = Entry {
        title: "Nallai Allai".to_owned(),
        artist: "Sid Sriram".to_owned(),
        album: "Kaatru Veliyidai".to_owned(),
        composer: "A. R. Rahman".to_owned(),
        language: "ta".to_owned(),
        year: 2017,
        keywords: vec!["film".to_owned(), "melody".to_owned()],
    };
    assert_eq!(entry.title(), "Nallai Allai");
    assert_eq!(entry.artist(), "Sid Sriram");
    assert_eq!(entry.album(), "Kaatru Veliyidai");
    assert_eq!(entry.composer(), "A. R. Rahman");
    assert_eq!(entry.language(), "ta");
    assert_eq!(*entry.year(), 2017);
    assert_eq!(
        entry.keywords(),
        &vec!["film".to_owned(), "melody".to_owned()]
    );
}
