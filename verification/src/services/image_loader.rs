//! Which image files are decoded to JPEG before analysis, by their extension.

use vstd::prelude::*;
use crate::error::AppError;
use crate::text::{ascii_lowercase_of, chars_of, push_char, same_text, to_ascii_lowercase};

verus! {

broadcast use vstd::string::group_string_axioms;

/// The final component of a path, as `std::path::Path::file_name` finds it.
pub uninterp spec fn path_file_name(path: Seq<char>) -> Option<Seq<char>>;

/// `std::path::Path::file_name` on a path given as text: the final component
/// of the path, if it has one. The component is taken as text; a path made
/// from text always has a component that is text.
#[verifier::external_body]
fn file_name_of(path: &str) -> (r: Option<String>)
    ensures
        match r {
            Some(n) => path_file_name(path@) == Some(n@),
            None => path_file_name(path@) is None,
        },
{
    match std::path::Path::new(path).file_name() {
        Some(name) => name.to_str().map(String::from),
        None => None,
    }
}

/// The position of the last `.` in `s`, or -1 where there is none.
pub open spec fn last_dot(s: Seq<char>) -> int
    decreases s.len(),
{
    if s.len() == 0 {
        -1
    } else if s.last() == '.' {
        s.len() - 1
    } else {
        last_dot(s.drop_last())
    }
}

/// The extension of a file name, as `std::path::Path::extension` documents
/// it: none if there is no `.` in the name, none if the name begins with `.`
/// and has no other `.`, else the part of the name after its last `.`.
pub open spec fn extension_of(name: Seq<char>) -> Option<Seq<char>> {
    let k: int = last_dot(name);
    if k <= 0 {
        None
    } else {
        Some(name.subrange(k + 1, name.len() as int))
    }
}

/// The extensions of the files that are decoded to JPEG before analysis.
pub open spec fn decoded_extensions() -> Seq<Seq<char>> {
    seq![
        ".heic"@, ".heif"@, ".avif"@, ".raw"@, ".cr2"@, ".cr3"@, ".nef"@,
        ".arw"@, ".dng"@, ".orf"@, ".rw2"@, ".pef"@, ".srw"@, ".raf"@,
    ]
}

/// Whether the file at `path` is decoded to JPEG before analysis: whether
/// `.` and its extension, in ASCII lower case, is one of the listed ones.
pub open spec fn needs_decoding(path: Seq<char>) -> bool {
    match path_file_name(path) {
        Some(name) => match extension_of(name) {
            Some(ext) => decoded_extensions().contains("."@ + ascii_lowercase_of(ext)),
            None => false,
        },
        None => false,
    }
}

proof fn lemma_last_dot_is(s: Seq<char>, k: int)
    requires
        -1 <= k < s.len(),
        k >= 0 ==> s[k] == '.',
        forall|j: int| k < j < s.len() ==> s[j] != '.',
    ensures
        last_dot(s) == k,
    decreases s.len(),
{
    if s.len() > 0 && s.last() != '.' {
        lemma_last_dot_is(s.drop_last(), k);
    }
}

/// The extension of a file name is what follows its last `.`, provided that
/// something comes before that `.`; a name without `.`, or whose only `.` is
/// its first character, has none.
pub proof fn lemma_extension_after_last_dot(stem: Seq<char>, ext: Seq<char>)
    ensures
        stem.len() > 0 && !ext.contains('.') ==> extension_of(stem + seq!['.'] + ext) == Some(ext),
        !ext.contains('.') ==> extension_of(ext) is None,
        !ext.contains('.') ==> extension_of(seq!['.'] + ext) is None,
{
    let name = stem + seq!['.'] + ext;
    if stem.len() > 0 && !ext.contains('.') {
        assert forall|j: int| stem.len() < j < name.len() implies name[j] != '.' by {
            assert(name[j] == ext[j - stem.len() - 1]);
        }
        lemma_last_dot_is(name, stem.len() as int);
        assert(name.subrange(stem.len() + 1int, name.len() as int) =~= ext);
    }
    if !ext.contains('.') {
        assert forall|j: int| -1 < j < ext.len() implies ext[j] != '.' by {
            if ext[j] == '.' {
                assert(ext.contains('.'));
            }
        }
        lemma_last_dot_is(ext, -1);
        let dotted = seq!['.'] + ext;
        assert forall|j: int| 0 < j < dotted.len() implies dotted[j] != '.' by {
            assert(dotted[j] == ext[j - 1]);
        }
        lemma_last_dot_is(dotted, 0);
    }
}

/// The files decoded to JPEG before analysis are exactly those whose
/// extension, in ASCII lower case, is one of heic, heif, avif, raw, cr2, cr3,
/// nef, arw, dng, orf, rw2, pef, srw and raf; a path without a file name or a
/// file name without an extension is never decoded.
pub proof fn lemma_decoded_extensions(path: Seq<char>)
    ensures
        path_file_name(path) is None ==> !needs_decoding(path),
        path_file_name(path) matches Some(name) ==> (extension_of(name) is None ==> !needs_decoding(path)),
        path_file_name(path) matches Some(name) ==> (extension_of(name) matches Some(x) ==> ({
            let e = ascii_lowercase_of(x);
            needs_decoding(path) <==> (e == "heic"@ || e == "heif"@ || e == "avif"@ || e == "raw"@ || e == "cr2"@ || e == "cr3"@ || e == "nef"@ || e == "arw"@ || e == "dng"@ || e == "orf"@ || e == "rw2"@ || e == "pef"@ || e == "srw"@ || e == "raf"@)
        })),
{
    reveal_strlit("heic");
    reveal_strlit(".heic");
    reveal_strlit("heif");
    reveal_strlit(".heif");
    reveal_strlit("avif");
    reveal_strlit(".avif");
    reveal_strlit("raw");
    reveal_strlit(".raw");
    reveal_strlit("cr2");
    reveal_strlit(".cr2");
    reveal_strlit("cr3");
    reveal_strlit(".cr3");
    reveal_strlit("nef");
    reveal_strlit(".nef");
    reveal_strlit("arw");
    reveal_strlit(".arw");
    reveal_strlit("dng");
    reveal_strlit(".dng");
    reveal_strlit("orf");
    reveal_strlit(".orf");
    reveal_strlit("rw2");
    reveal_strlit(".rw2");
    reveal_strlit("pef");
    reveal_strlit(".pef");
    reveal_strlit("srw");
    reveal_strlit(".srw");
    reveal_strlit("raf");
    reveal_strlit(".raf");
    reveal_strlit(".");
    assert("."@ + "heic"@ =~= ".heic"@);
    assert("."@ + "heif"@ =~= ".heif"@);
    assert("."@ + "avif"@ =~= ".avif"@);
    assert("."@ + "raw"@ =~= ".raw"@);
    assert("."@ + "cr2"@ =~= ".cr2"@);
    assert("."@ + "cr3"@ =~= ".cr3"@);
    assert("."@ + "nef"@ =~= ".nef"@);
    assert("."@ + "arw"@ =~= ".arw"@);
    assert("."@ + "dng"@ =~= ".dng"@);
    assert("."@ + "orf"@ =~= ".orf"@);
    assert("."@ + "rw2"@ =~= ".rw2"@);
    assert("."@ + "pef"@ =~= ".pef"@);
    assert("."@ + "srw"@ =~= ".srw"@);
    assert("."@ + "raf"@ =~= ".raf"@);
    let l = decoded_extensions();
    if let Some(name) = path_file_name(path) {
        if let Some(x) = extension_of(name) {
            let e = ascii_lowercase_of(x);
            let d = "."@ + e;
            if l.contains(d) {
                let i = choose|i: int| 0 <= i < l.len() && l[i] == d;
                if i == 0 { lemma_dot_prefix(e, "heic"@); }
                if i == 1 { lemma_dot_prefix(e, "heif"@); }
                if i == 2 { lemma_dot_prefix(e, "avif"@); }
                if i == 3 { lemma_dot_prefix(e, "raw"@); }
                if i == 4 { lemma_dot_prefix(e, "cr2"@); }
                if i == 5 { lemma_dot_prefix(e, "cr3"@); }
                if i == 6 { lemma_dot_prefix(e, "nef"@); }
                if i == 7 { lemma_dot_prefix(e, "arw"@); }
                if i == 8 { lemma_dot_prefix(e, "dng"@); }
                if i == 9 { lemma_dot_prefix(e, "orf"@); }
                if i == 10 { lemma_dot_prefix(e, "rw2"@); }
                if i == 11 { lemma_dot_prefix(e, "pef"@); }
                if i == 12 { lemma_dot_prefix(e, "srw"@); }
                if i == 13 { lemma_dot_prefix(e, "raf"@); }
            }
            if e == "heic"@ { assert(l[0] == d); }
            if e == "heif"@ { assert(l[1] == d); }
            if e == "avif"@ { assert(l[2] == d); }
            if e == "raw"@ { assert(l[3] == d); }
            if e == "cr2"@ { assert(l[4] == d); }
            if e == "cr3"@ { assert(l[5] == d); }
            if e == "nef"@ { assert(l[6] == d); }
            if e == "arw"@ { assert(l[7] == d); }
            if e == "dng"@ { assert(l[8] == d); }
            if e == "orf"@ { assert(l[9] == d); }
            if e == "rw2"@ { assert(l[10] == d); }
            if e == "pef"@ { assert(l[11] == d); }
            if e == "srw"@ { assert(l[12] == d); }
            if e == "raf"@ { assert(l[13] == d); }
        }
    }
}

proof fn lemma_dot_prefix(a: Seq<char>, b: Seq<char>)
    ensures
        ("."@ + a == "."@ + b) <==> a == b,
{
    reveal_strlit(".");
    if "."@ + a == "."@ + b {
        assert(("."@ + a).subrange(1, ("."@ + a).len() as int) =~= a);
        assert(("."@ + b).subrange(1, ("."@ + b).len() as int) =~= b);
    }
}

/// The extension of a file name (see `extension_of`).
pub fn file_extension(name: &str) -> (r: Option<String>)
    ensures
        match r {
            Some(e) => extension_of(name@) == Some(e@),
            None => extension_of(name@) is None,
        },
{
    let cs = chars_of(name);
    let mut k: usize = cs.len();
    while k > 0 && cs[k - 1] != '.'
        invariant
            cs@ == name@,
            k <= cs.len(),
            forall|j: int| k <= j < cs.len() ==> cs@[j] != '.',
        decreases k,
    {
        k = k - 1;
    }
    proof {
        lemma_last_dot_is(cs@, k - 1);
    }
    if k <= 1 {
        return None;
    }
    let mut ext = String::new();
    let mut i: usize = k;
    while i < cs.len()
        invariant
            cs@ == name@,
            k <= i <= cs.len(),
            ext@ =~= cs@.subrange(k as int, i as int),
        decreases cs.len() - i,
    {
        push_char(&mut ext, cs[i]);
        i = i + 1;
    }
    Some(ext)
}

fn is_decoded_extension(dotted: &str) -> (r: bool)
    ensures
        r == decoded_extensions().contains(dotted@),
{
    let found = same_text(dotted, ".heic") || same_text(dotted, ".heif") || same_text(dotted, ".avif")
        || same_text(dotted, ".raw") || same_text(dotted, ".cr2") || same_text(dotted, ".cr3")
        || same_text(dotted, ".nef") || same_text(dotted, ".arw") || same_text(dotted, ".dng")
        || same_text(dotted, ".orf") || same_text(dotted, ".rw2") || same_text(dotted, ".pef")
        || same_text(dotted, ".srw") || same_text(dotted, ".raf");
    proof {
        let l = decoded_extensions();
        if found {
            if dotted@ == ".heic"@ { assert(l[0] == dotted@); }
            if dotted@ == ".heif"@ { assert(l[1] == dotted@); }
            if dotted@ == ".avif"@ { assert(l[2] == dotted@); }
            if dotted@ == ".raw"@ { assert(l[3] == dotted@); }
            if dotted@ == ".cr2"@ { assert(l[4] == dotted@); }
            if dotted@ == ".cr3"@ { assert(l[5] == dotted@); }
            if dotted@ == ".nef"@ { assert(l[6] == dotted@); }
            if dotted@ == ".arw"@ { assert(l[7] == dotted@); }
            if dotted@ == ".dng"@ { assert(l[8] == dotted@); }
            if dotted@ == ".orf"@ { assert(l[9] == dotted@); }
            if dotted@ == ".rw2"@ { assert(l[10] == dotted@); }
            if dotted@ == ".pef"@ { assert(l[11] == dotted@); }
            if dotted@ == ".srw"@ { assert(l[12] == dotted@); }
            if dotted@ == ".raf"@ { assert(l[13] == dotted@); }
        } else {
            assert forall|i: int| 0 <= i < l.len() implies l[i] != dotted@ by {}
        }
    }
    found
}

/// Whether the image at `path` is decoded to JPEG before analysis (see
/// `needs_decoding`).
pub fn needs_jpeg_decoding(path: &str) -> (r: bool)
    ensures
        r == needs_decoding(path@),
{
    let name = match file_name_of(path) {
        Some(n) => n,
        None => return false,
    };
    let ext = match file_extension(name.as_str()) {
        Some(e) => e,
        None => return false,
    };
    let lower = to_ascii_lowercase(ext.as_str());
    let dotted = String::from_str(".").concat(lower.as_str());
    is_decoded_extension(dotted.as_str())
}

/// The name under which an image is decoded: the final component of its
/// path, or `image` where the path has none.
pub fn decode_file_name(path: &str) -> (r: String)
    ensures
        match path_file_name(path@) {
            Some(n) => r@ == n,
            None => r@ == "image"@,
        },
{
    match file_name_of(path) {
        Some(n) => n,
        None => String::from_str("image"),
    }
}

/// The error for an image file that does not exist: not found,
/// "file not found: " and the path.
pub fn file_not_found(path: &str) -> (r: AppError)
    ensures
        r matches AppError::NotFound(m) && m@ == "file not found: "@ + path@,
{
    AppError::NotFound(String::from_str("file not found: ").concat(path))
}

} // verus!
