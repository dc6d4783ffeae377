//! Extension normalisation, so that the extensions of an input and an output
//! can be compared: letters fold to lower case and the long spellings `jpeg`
//! and `tiff` fold to `jpg` and `tif`.
use vstd::prelude::*;
use crate::path::{extension_of, path_extension, push_char};

verus! {

/// The lower-case form of a string, as `str::to_lowercase` gives it.
pub uninterp spec fn lower_of(s: Seq<char>) -> Seq<char>;

pub open spec fn jpeg_seq() -> Seq<char> {
    seq!['j', 'p', 'e', 'g']
}

pub open spec fn jpg_seq() -> Seq<char> {
    seq!['j', 'p', 'g']
}

pub open spec fn tiff_seq() -> Seq<char> {
    seq!['t', 'i', 'f', 'f']
}

pub open spec fn tif_seq() -> Seq<char> {
    seq!['t', 'i', 'f']
}

/// The short spelling of a lower-case extension: `jpeg` reads as `jpg`,
/// `tiff` as `tif`, and every other extension stays as it is.
pub open spec fn short_form(l: Seq<char>) -> Seq<char> {
    if l == jpeg_seq() {
        jpg_seq()
    } else if l == tiff_seq() {
        tif_seq()
    } else {
        l
    }
}

/// The normal form of an extension: lower case, in its short spelling.
pub open spec fn normal_ext(e: Seq<char>) -> Seq<char> {
    short_form(lower_of(e))
}

/// The extension of a path, or the empty sequence where it has none.
pub open spec fn ext_or_empty(p: Seq<char>) -> Seq<char> {
    match extension_of(p) {
        Some(e) => e,
        None => Seq::empty(),
    }
}

/// The normalised extension of a path.
pub open spec fn path_ext_normal(p: Seq<char>) -> Seq<char> {
    normal_ext(ext_or_empty(p))
}

/// Relies on `str::to_lowercase`: the lower-case form depends on the
/// characters alone.
#[verifier::external_body]
fn lowercase(s: &str) -> (r: String)
    ensures
        r@ == lower_of(s@),
{
    s.to_lowercase()
}

/// Taking the short spelling twice gives what taking it once gives.
pub proof fn lemma_short_form_idempotent(l: Seq<char>)
    ensures
        short_form(short_form(l)) == short_form(l),
{
    lemma_short_form_not_long(l);
}

/// The short spelling is never one of the long spellings.
pub proof fn lemma_short_form_not_long(l: Seq<char>)
    ensures
        short_form(l) != jpeg_seq(),
        short_form(l) != tiff_seq(),
{
    assert(jpg_seq() != jpeg_seq() && jpg_seq() != tiff_seq()) by {
        assert(jpg_seq().len() != jpeg_seq().len());
        assert(jpg_seq()[0] != tiff_seq()[0]);
    }
    assert(tif_seq() != jpeg_seq() && tif_seq() != tiff_seq()) by {
        assert(tif_seq().len() != tiff_seq().len());
        assert(tif_seq()[0] != jpeg_seq()[0]);
    }
}

/// Extensions with the same lower-case form normalise alike.
pub proof fn lemma_normal_ext_case_insensitive(a: Seq<char>, b: Seq<char>)
    requires
        lower_of(a) == lower_of(b),
    ensures
        normal_ext(a) == normal_ext(b),
{
}

fn is_four(v: &Vec<char>, a: char, b: char, c: char, d: char) -> (r: bool)
    ensures
        r == (v@ == seq![a, b, c, d]),
{
    let r = v.len() == 4 && v[0] == a && v[1] == b && v[2] == c && v[3] == d;
    if r {
        assert(v@ =~= seq![a, b, c, d]);
    } else if v.len() == 4 {
        assert(v@[0] != a || v@[1] != b || v@[2] != c || v@[3] != d);
        assert(seq![a, b, c, d][0] == a && seq![a, b, c, d][1] == b);
        assert(seq![a, b, c, d][2] == c && seq![a, b, c, d][3] == d);
    }
    r
}

/// The short spelling of an extension that is already in lower case.
pub fn short_spelling(lowered: &str) -> (r: String)
    ensures
        r@ == short_form(lowered@),
{
    let n = lowered.unicode_len();
    let mut chars: Vec<char> = Vec::new();
    let mut i: usize = 0;
    while i < n
        invariant
            n == lowered@.len(),
            i <= n,
            chars@ == lowered@.subrange(0, i as int),
        decreases n - i,
    {
        chars.push(lowered.get_char(i));
        assert(lowered@.subrange(0, i + 1) == lowered@.subrange(0, i as int).push(lowered@[i as int]));
        i = i + 1;
    }
    assert(lowered@.subrange(0, n as int) == lowered@);
    if is_four(&chars, 'j', 'p', 'e', 'g') {
        let mut r = String::new();
        push_char(&mut r, 'j');
        push_char(&mut r, 'p');
        push_char(&mut r, 'g');
        assert(r@ == jpg_seq());
        return r;
    }
    if is_four(&chars, 't', 'i', 'f', 'f') {
        let mut r = String::new();
        push_char(&mut r, 't');
        push_char(&mut r, 'i');
        push_char(&mut r, 'f');
        assert(r@ == tif_seq());
        return r;
    }
    String::from_str(lowered)
}

/// Normalises a bare extension (without its dot).
pub fn normalize_ext(ext: &str) -> (r: String)
    ensures
        r@ == normal_ext(ext@),
{
    let lowered = lowercase(ext);
    short_spelling(lowered.as_str())
}

/// The normalised extension of `path`; a path without an extension gives the
/// empty string.
pub fn ext_normal(path: &str) -> (r: String)
    ensures
        r@ == path_ext_normal(path@),
{
    match path_extension(path) {
        Some(e) => normalize_ext(e.as_str()),
        None => {
            let empty = String::new();
            let r = normalize_ext(empty.as_str());
            r
        },
    }
}

} // verus!
