use vstd::prelude::*;

verus! {

/// One playlist entry, as the playlist file carries it.
#[derive(Debug)]
pub struct Entry {
    pub title: String,
    pub artist: String,
    pub album: String,
    pub composer: String,
    pub language: String,
    pub year: u16,
    pub keywords: Vec<String>,
}

impl Entry {
    /// The entry's title.
    pub fn title(&self) -> (r: &str)
        ensures
            r@ == self.title@,
    {
        self.title.as_str()
    }

    /// The entry's artist.
    pub fn artist(&self) -> (r: &str)
        ensures
            r@ == self.artist@,
    {
        self.artist.as_str()
    }

    /// The entry's album.
    pub fn album(&self) -> (r: &str)
        ensures
            r@ == self.album@,
    {
        self.album.as_str()
    }

    /// The entry's composer.
    pub fn composer(&self) -> (r: &str)
        ensures
            r@ == self.composer@,
    {
        self.composer.as_str()
    }

    /// The entry's language.
    pub fn language(&self) -> (r: &str)
        ensures
            r@ == self.language@,
    {
        self.language.as_str()
    }

    /// The entry's release year.
    pub fn year(&self) -> (r: &u16)
        ensures
            r == &self.year,
    {
        &self.year
    }

    /// The entry's keywords.
    pub fn keywords(&self) -> (r: &Vec<String>)
        ensures
            r == &self.keywords,
    {
        &self.keywords
    }
}

} // verus!
