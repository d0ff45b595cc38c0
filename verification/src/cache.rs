//! Where the answer for a word is kept on disk, below the directory of the
//! settings. The word is taken as it was given, for the directory and for
//! the file.

use vstd::prelude::*;

verus! {

/// The directory, below the directory of the settings, that holds all
/// cached answers.
pub const CACHE_DIRECTORY: &'static str = "cache";

/// The ending of a cache file's name.
pub const CACHE_SUFFIX: &'static str = ".json";

/// The place of one cached answer: `store`/`folder`/`file`, from the
/// directory of the settings downwards.
#[derive(Debug, PartialEq, Eq)]
pub struct CacheLocation {
    pub store: String,
    pub folder: String,
    pub file: String,
}

/// The mathematical value of a [`CacheLocation`].
pub struct CacheLocationView {
    pub store: Seq<char>,
    pub folder: Seq<char>,
    pub file: Seq<char>,
}

impl View for CacheLocation {
    type V = CacheLocationView;

    open spec fn view(&self) -> CacheLocationView {
        CacheLocationView { store: self.store@, folder: self.folder@, file: self.file@ }
    }
}

/// The place of the answer for `word`: a directory named by the word, and in
/// it a file named by the word and the suffix.
pub open spec fn location_of(word: Seq<char>) -> CacheLocationView {
    CacheLocationView { store: CACHE_DIRECTORY@, folder: word, file: word + CACHE_SUFFIX@ }
}

/// The place of the answer for `word`.
pub fn cache_location(word: &str) -> (location: CacheLocation)
    ensures
        location@ == location_of(word@),
{
    CacheLocation {
        store: CACHE_DIRECTORY.to_owned(),
        folder: word.to_owned(),
        file: word.to_owned().concat(CACHE_SUFFIX),
    }
}

} // verus!
