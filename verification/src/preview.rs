//! File-type helpers for the preview pane: a name's extension, and which
//! extensions are shown as text or as images.

use vstd::prelude::*;

use crate::text::str_eq;

verus! {

/// What `str::to_lowercase` returns for a string: a function of the
/// characters alone.
pub uninterp spec fn lower_of(s: Seq<char>) -> Seq<char>;

/// Relies on `str::to_lowercase`: Unicode lower-casing, which depends on
/// the characters alone; an empty string stays empty.
#[verifier::external_body]
fn to_lowercase(s: &str) -> (r: String)
    ensures
        r@ == lower_of(s@),
        s@.len() == 0 ==> r@.len() == 0,
{
    s.to_lowercase()
}

/// The index just after the last dot of `s`, if it holds one.
pub open spec fn ext_start(s: Seq<char>) -> Option<int>
    decreases s.len(),
{
    if s.len() == 0 {
        None
    } else if s.last() == '.' {
        Some(s.len() as int)
    } else {
        ext_start(s.drop_last())
    }
}

/// The characters after the last dot of `s`; empty if it holds none.
pub open spec fn raw_ext_of(s: Seq<char>) -> Seq<char> {
    match ext_start(s) {
        None => Seq::empty(),
        Some(j) => s.skip(j),
    }
}

/// The lower-cased extension of a file name: the part after the last
/// dot, or empty when there is none.
pub fn file_extension(name: &str) -> (r: String)
    ensures
        r@ == lower_of(raw_ext_of(name@)),
{
    let len = name.unicode_len();
    let mut dot_end: usize = 0;
    let mut has_dot = false;
    let mut i: usize = 0;
    while i < len
        invariant
            i <= len,
            len == name@.len(),
            dot_end <= i,
            match ext_start(name@.take(i as int)) {
                None => !has_dot,
                Some(j) => has_dot && j == dot_end,
            },
        decreases len - i,
    {
        proof {
            assert(name@.take(i as int + 1).drop_last() =~= name@.take(i as int));
            assert(name@.take(i as int + 1).last() == name@[i as int]);
        }
        if name.get_char(i) == '.' {
            dot_end = i + 1;
            has_dot = true;
        }
        i = i + 1;
    }
    proof {
        assert(name@.take(len as int) =~= name@);
    }
    if has_dot {
        let ext = name.substring_char(dot_end, len);
        proof {
            assert(ext@ =~= name@.skip(dot_end as int));
        }
        to_lowercase(ext)
    } else {
        proof {
            reveal_strlit("");
            assert(""@ =~= raw_ext_of(name@));
        }
        to_lowercase("")
    }
}

/// The lower-cased extensions previewed as text.
pub open spec fn text_ext_spec(s: Seq<char>) -> bool {
    ||| s == "sh"@
    ||| s == "bash"@
    ||| s == "zsh"@
    ||| s == "fish"@
    ||| s == "txt"@
    ||| s == "text"@
    ||| s == "log"@
    ||| s == "yml"@
    ||| s == "yaml"@
    ||| s == "json"@
    ||| s == "jsonc"@
    ||| s == "md"@
    ||| s == "markdown"@
    ||| s == "toml"@
    ||| s == "ini"@
    ||| s == "cfg"@
    ||| s == "conf"@
    ||| s == "xml"@
    ||| s == "html"@
    ||| s == "htm"@
    ||| s == "css"@
    ||| s == "scss"@
    ||| s == "csv"@
    ||| s == "tsv"@
    ||| s == "rs"@
    ||| s == "py"@
    ||| s == "js"@
    ||| s == "ts"@
    ||| s == "tsx"@
    ||| s == "jsx"@
    ||| s == "c"@
    ||| s == "cpp"@
    ||| s == "h"@
    ||| s == "hpp"@
    ||| s == "cc"@
    ||| s == "java"@
    ||| s == "kt"@
    ||| s == "kts"@
    ||| s == "swift"@
    ||| s == "m"@
    ||| s == "mm"@
    ||| s == "go"@
    ||| s == "rb"@
    ||| s == "php"@
    ||| s == "pl"@
    ||| s == "sql"@
    ||| s == "graphql"@
    ||| s == "gql"@
    ||| s == "env"@
    ||| s == "gitignore"@
    ||| s == "dockerignore"@
    ||| s == "makefile"@
    ||| s == "cmake"@
    ||| s == "dockerfile"@
}

/// Whether an extension is previewed as text.
pub fn is_text_ext(ext: &str) -> (r: bool)
    ensures
        r == text_ext_spec(ext@),
{
    str_eq(ext, "sh") || str_eq(ext, "bash") || str_eq(ext, "zsh") || str_eq(ext, "fish")
        || str_eq(ext, "txt") || str_eq(ext, "text") || str_eq(ext, "log") || str_eq(ext, "yml")
        || str_eq(ext, "yaml") || str_eq(ext, "json") || str_eq(ext, "jsonc") || str_eq(ext, "md")
        || str_eq(ext, "markdown") || str_eq(ext, "toml") || str_eq(ext, "ini") || str_eq(
        ext,
        "cfg",
    ) || str_eq(ext, "conf") || str_eq(ext, "xml") || str_eq(ext, "html") || str_eq(ext, "htm")
        || str_eq(ext, "css") || str_eq(ext, "scss") || str_eq(ext, "csv") || str_eq(ext, "tsv")
        || str_eq(ext, "rs") || str_eq(ext, "py") || str_eq(ext, "js") || str_eq(ext, "ts")
        || str_eq(ext, "tsx") || str_eq(ext, "jsx") || str_eq(ext, "c") || str_eq(ext, "cpp")
        || str_eq(ext, "h") || str_eq(ext, "hpp") || str_eq(ext, "cc") || str_eq(ext, "java")
        || str_eq(ext, "kt") || str_eq(ext, "kts") || str_eq(ext, "swift") || str_eq(ext, "m")
        || str_eq(ext, "mm") || str_eq(ext, "go") || str_eq(ext, "rb") || str_eq(ext, "php")
        || str_eq(ext, "pl") || str_eq(ext, "sql") || str_eq(ext, "graphql") || str_eq(ext, "gql")
        || str_eq(ext, "env") || str_eq(ext, "gitignore") || str_eq(ext, "dockerignore")
        || str_eq(ext, "makefile") || str_eq(ext, "cmake") || str_eq(ext, "dockerfile")
}

/// The lower-cased extensions previewed as images.
pub open spec fn image_ext_spec(s: Seq<char>) -> bool {
    ||| s == "jpg"@
    ||| s == "jpeg"@
    ||| s == "png"@
    ||| s == "gif"@
    ||| s == "webp"@
    ||| s == "bmp"@
}

/// Whether an extension is previewed as an image.
pub fn is_image_ext(ext: &str) -> (r: bool)
    ensures
        r == image_ext_spec(ext@),
{
    str_eq(ext, "jpg") || str_eq(ext, "jpeg") || str_eq(ext, "png") || str_eq(ext, "gif")
        || str_eq(ext, "webp") || str_eq(ext, "bmp")
}

/// Whether an extension can be previewed at all: as text or as an image.
pub fn is_previewable(ext: &str) -> (r: bool)
    ensures
        r == (text_ext_spec(ext@) || image_ext_spec(ext@)),
{
    is_text_ext(ext) || is_image_ext(ext)
}

} // verus!
