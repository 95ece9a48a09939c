//! Filesystem paths and URLs as the configuration holds them.
//!
//! `PathBuf` is opaque to the verifier. What is believed of it here is that
//! `PathBuf::from` is a function of the text it is given, and that cloning a
//! path gives that path.

use std::path::PathBuf;
use vstd::prelude::*;

verus! {

/// `std::path::PathBuf`, carried through verified code without looking inside.
#[verifier::external_type_specification]
#[verifier::external_body]
pub struct ExPathBuf(std::path::PathBuf);

/// `<PathBuf as Clone>::clone`: the clone is the path that was cloned.
pub assume_specification[ <PathBuf as Clone>::clone ](path: &PathBuf) -> (cloned: PathBuf)
    ensures
        cloned == path,
;

/// The path that `PathBuf::from` makes of `text`.
pub uninterp spec fn path_of(text: Seq<char>) -> PathBuf;

/// `PathBuf::from` on a `String`: the path whose text is the string's, taken
/// over without change.
#[verifier::external_body]
pub(crate) fn path_from_string(text: String) -> (path: PathBuf)
    ensures
        path == path_of(text@),
{
    PathBuf::from(text)
}

#[derive(Debug)]
pub struct PathConfig {
    pub file_path: PathBuf,
}

impl Clone for PathConfig {
    fn clone(&self) -> (cloned: Self)
        ensures
            cloned == *self,
    {
        PathConfig { file_path: self.file_path.clone() }
    }
}

#[derive(Debug)]
pub struct UrlConfig {
    pub file_url: String,
}

impl View for UrlConfig {
    type V = Seq<char>;

    open spec fn view(&self) -> Seq<char> {
        self.file_url@
    }
}

impl Clone for UrlConfig {
    fn clone(&self) -> (cloned: Self)
        ensures
            cloned == *self,
    {
        UrlConfig { file_url: self.file_url.clone() }
    }
}

} // verus!
