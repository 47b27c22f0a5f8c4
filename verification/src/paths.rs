//! Paths of files and directories.
use vstd::prelude::*;
use vstd::utf8::encode_utf8;

verus! {

/// A path: the bytes by which the system knows it, and the text that is shown of it. A path that
/// is no Unicode text is shown with some of it replaced; its bytes keep all of it.
#[derive(Debug, PartialEq, Eq)]
pub struct FilePath {
    pub encoded: Vec<u8>,
    pub shown: String,
}

#[verifier::ext_equal]
pub struct PathView {
    pub encoded: Seq<u8>,
    pub shown: Seq<char>,
}

impl View for FilePath {
    type V = PathView;

    open spec fn view(&self) -> PathView {
        PathView { encoded: self.encoded@, shown: self.shown@ }
    }
}

impl DeepView for FilePath {
    type V = PathView;

    open spec fn deep_view(&self) -> PathView {
        self@
    }
}

impl Clone for FilePath {
    fn clone(&self) -> (res: Self)
        ensures
            res@ == self@,
    {
        let encoded: Vec<u8> = self.encoded.clone();
        assert(encoded@ =~= self.encoded@);
        FilePath { encoded, shown: self.shown.clone() }
    }
}

/// The path that a text is.
pub open spec fn path_of(text: Seq<char>) -> PathView {
    PathView { encoded: encode_utf8(text), shown: text }
}

/// A path that is a text is shown as that text, and texts that differ are different paths.
pub proof fn law_text_path_is_its_text(text: Seq<char>, other: Seq<char>)
    ensures
        path_of(text).shown == text,
        path_of(text).encoded == encode_utf8(text),
        path_of(text) == path_of(other) ==> text == other,
{
}

impl FilePath {
    /// The path that a text is: its bytes are those of the text in UTF-8, and it is shown as it
    /// stands.
    pub fn new(text: &str) -> (res: Self)
        ensures
            res@ == path_of(text@),
    {
        let mut encoded: Vec<u8> = Vec::new();
        encoded.extend_from_slice(text.as_bytes());
        assert(encoded@ =~= encode_utf8(text@));
        FilePath { encoded, shown: text.to_string() }
    }

    /// Whether the path is empty.
    pub fn is_empty(&self) -> (res: bool)
        ensures
            res == (self@.encoded.len() == 0),
    {
        self.encoded.len() == 0
    }
}

/// A copy of an optional path.
pub fn clone_path(path: &Option<FilePath>) -> (res: Option<FilePath>)
    ensures
        res.deep_view() == path.deep_view(),
{
    match path {
        Some(path) => Some(path.clone()),
        None => None,
    }
}

/// Paths that look alike are alike in their bytes and in what is shown of them.
pub proof fn law_path_shows_every_part(a: FilePath, b: FilePath)
    requires
        a.deep_view() == b.deep_view(),
    ensures
        a.encoded@ == b.encoded@,
        a.shown@ == b.shown@,
{
}

} // verus!
