//! The folder spelling WebView2's virtual-host mapping accepts.
//!
//! Windows `canonicalize` answers with the extended-length spelling (`\\?\D:\...`,
//! `\\?\UNC\server\share\...`). WebView2's local-content loader refuses it (the page gets
//! ERR_INVALID_URL even though the directory exists), so the mapped folder is given in the
//! ordinary DOS or UNC spelling of the same path.

use vstd::prelude::*;
use crate::text::{begins_with, chars_of, push_char, string_of};

verus! {

broadcast use vstd::string::group_string_axioms;

/// The extended-length prefix of a UNC path: `\\?\UNC\`.
pub open spec fn verbatim_unc() -> Seq<char> {
    seq!['\\', '\\', '?', '\\', 'U', 'N', 'C', '\\']
}

/// The extended-length prefix: `\\?\`.
pub open spec fn verbatim() -> Seq<char> {
    seq!['\\', '\\', '?', '\\']
}

/// An ASCII letter.
pub open spec fn is_ascii_letter(c: char) -> bool {
    ('a' <= c && c <= 'z') || ('A' <= c && c <= 'Z')
}

/// `d` starts with a drive: a letter, a colon and a backslash.
pub open spec fn starts_with_drive(d: Seq<char>) -> bool {
    d.len() >= 3 && is_ascii_letter(d[0]) && d[1] == ':' && d[2] == '\\'
}

/// The spelling of the folder `text` names that WebView2's mapping accepts: `\\?\UNC\rest`
/// becomes `\\rest`, `\\?\` before a drive is dropped, and every other spelling is kept as it is.
pub open spec fn mapped_folder(text: Seq<char>) -> Seq<char> {
    if begins_with(text, verbatim_unc()) {
        seq!['\\', '\\'] + text.skip(8)
    } else if begins_with(text, verbatim()) && starts_with_drive(text.skip(4)) {
        text.skip(4)
    } else {
        text
    }
}

/// Whether `v` begins with the characters of `p`.
fn vec_begins_with(v: &Vec<char>, p: &Vec<char>) -> (r: bool)
    ensures
        r == begins_with(v@, p@),
{
    if p.len() > v.len() {
        return false;
    }
    let mut i: usize = 0;
    while i < p.len()
        invariant
            p@.len() <= v@.len(),
            i <= p@.len(),
            forall|j: int| 0 <= j < i ==> v@[j] == p@[j],
        decreases p.len() - i,
    {
        if v[i] != p[i] {
            assert(v@.take(p@.len() as int)[i as int] != p@[i as int]);
            return false;
        }
        i = i + 1;
    }
    assert(v@.take(p@.len() as int) == p@);
    true
}

/// Whether `c` is an ASCII letter.
fn ascii_letter(c: char) -> (r: bool)
    ensures
        r == is_ascii_letter(c),
{
    ('a' <= c && c <= 'z') || ('A' <= c && c <= 'Z')
}

/// WebView2's folder mapping needs a DOS/UNC path, not the extended-length spelling returned by
/// Windows `canonicalize`: `text` is the folder's path as text, and the answer is the spelling to
/// map (see [`mapped_folder`]).
pub fn mapping_folder(text: &str) -> (out: String)
    ensures
        out@ == mapped_folder(text@),
{
    let v = chars_of(text);
    let mut unc: Vec<char> = Vec::new();
    unc.push('\\');
    unc.push('\\');
    unc.push('?');
    unc.push('\\');
    unc.push('U');
    unc.push('N');
    unc.push('C');
    unc.push('\\');
    assert(unc@ == verbatim_unc());
    if vec_begins_with(&v, &unc) {
        let mut out = String::new();
        push_char(&mut out, '\\');
        push_char(&mut out, '\\');
        let rest = string_of(&v, 8, v.len());
        crate::text::push_str(&mut out, rest.as_str());
        assert(v@.subrange(8, v@.len() as int) == v@.skip(8));
        return out;
    }
    let mut prefix: Vec<char> = Vec::new();
    prefix.push('\\');
    prefix.push('\\');
    prefix.push('?');
    prefix.push('\\');
    assert(prefix@ == verbatim());
    if vec_begins_with(&v, &prefix) {
        if v.len() >= 7 && ascii_letter(v[4]) && v[5] == ':' && v[6] == '\\' {
            assert(v@.subrange(4, v@.len() as int) == v@.skip(4));
            return string_of(&v, 4, v.len());
        }
    }
    assert(v@.subrange(0, v@.len() as int) == v@);
    string_of(&v, 0, v.len())
}

/// Only the extended-length spelling is rewritten: a path that does not begin with `\\?\` is
/// mapped to itself.
pub proof fn law_other_spellings_unchanged(text: Seq<char>)
    requires
        !begins_with(text, verbatim()),
    ensures
        mapped_folder(text) == text,
{
    if begins_with(text, verbatim_unc()) {
        assert(text.take(4) == verbatim_unc().take(4));
        assert(verbatim_unc().take(4) == verbatim());
    }
}

/// A canonical drive or UNC folder loses its extended-length prefix. (A UNC remainder that itself
/// begins with `?\`, as in `\\?\UNC\?\x`, would come out as `\\?\x`; it names no server and is
/// left out.)
pub proof fn law_canonical_folders_lose_the_prefix(text: Seq<char>)
    requires
        (begins_with(text, verbatim_unc()) && !begins_with(text.skip(8), seq!['?', '\\']))
            || (begins_with(text, verbatim()) && starts_with_drive(text.skip(4))),
    ensures
        !begins_with(mapped_folder(text), verbatim()),
{
    let m = mapped_folder(text);
    if begins_with(m, verbatim()) {
        assert(m.take(4)[0] == m[0]);
        assert(m.take(4)[2] == m[2]);
        assert(m.take(4)[3] == m[3]);
        if begins_with(text, verbatim_unc()) {
            assert(m[2] == text[8]);
            assert(m[3] == text[9]);
            assert(text.skip(8).take(2) =~= seq!['?', '\\']);
        }
    }
}

/// The text names a canonical drive folder: `\\?\`, then a letter, a colon and a backslash.
pub open spec fn canonical_drive_text(text: Seq<char>) -> bool {
    &&& text.len() >= 7
    &&& text[0] == '\\' && text[1] == '\\' && text[2] == '?' && text[3] == '\\'
    &&& (('a' <= text[4] && text[4] <= 'z') || ('A' <= text[4] && text[4] <= 'Z'))
    &&& text[5] == ':' && text[6] == '\\'
}

/// The text names a canonical UNC folder: `\\?\UNC\`, then the server and share.
pub open spec fn canonical_unc_text(text: Seq<char>) -> bool {
    &&& text.len() >= 8
    &&& text[0] == '\\' && text[1] == '\\' && text[2] == '?' && text[3] == '\\'
    &&& text[4] == 'U' && text[5] == 'N' && text[6] == 'C' && text[7] == '\\'
}

/// A canonical drive folder maps to the same drive and path: putting `\\?\` back in front of the
/// answer gives exactly the text, so nothing after the prefix is lost or changed.
pub proof fn law_drive_folder_drops_only_the_prefix(text: Seq<char>)
    requires
        canonical_drive_text(text),
    ensures
        seq!['\\', '\\', '?', '\\'] + mapped_folder(text) == text,
{
    assert(text.take(4) == verbatim());
    assert(!begins_with(text, verbatim_unc())) by {
        if begins_with(text, verbatim_unc()) {
            assert(text.take(8)[5] == text[5]);
        }
    }
    assert(starts_with_drive(text.skip(4)));
    assert(seq!['\\', '\\', '?', '\\'] + text.skip(4) == text);
}

/// A canonical UNC folder maps to `\\server\share\...`: the answer starts with two backslashes,
/// and putting `\\?\UNC` back in front of everything after the first of them gives exactly the
/// text.
pub proof fn law_unc_folder_keeps_server_and_share(text: Seq<char>)
    requires
        canonical_unc_text(text),
    ensures
        mapped_folder(text).len() >= 2,
        mapped_folder(text)[0] == '\\',
        mapped_folder(text)[1] == '\\',
        seq!['\\', '\\', '?', '\\', 'U', 'N', 'C'] + mapped_folder(text).skip(1) == text,
{
    assert(text.take(8) == verbatim_unc());
    let m = mapped_folder(text);
    assert(m == seq!['\\', '\\'] + text.skip(8));
    assert(m.skip(1) == seq!['\\'] + text.skip(8));
    assert(seq!['\\', '\\', '?', '\\', 'U', 'N', 'C'] + m.skip(1) == text);
}

/// Every spelling that is neither a canonical drive folder nor a canonical UNC folder is mapped
/// to itself.
pub proof fn law_every_other_spelling_is_kept(text: Seq<char>)
    requires
        !canonical_drive_text(text),
        !canonical_unc_text(text),
    ensures
        mapped_folder(text) == text,
{
    if begins_with(text, verbatim_unc()) {
        assert(text.take(8)[0] == text[0]);
        assert(text.take(8)[1] == text[1]);
        assert(text.take(8)[2] == text[2]);
        assert(text.take(8)[3] == text[3]);
        assert(text.take(8)[4] == text[4]);
        assert(text.take(8)[5] == text[5]);
        assert(text.take(8)[6] == text[6]);
        assert(text.take(8)[7] == text[7]);
    } else if begins_with(text, verbatim()) && starts_with_drive(text.skip(4)) {
        assert(text.take(4)[0] == text[0]);
        assert(text.take(4)[1] == text[1]);
        assert(text.take(4)[2] == text[2]);
        assert(text.take(4)[3] == text[3]);
        assert(text.skip(4)[0] == text[4]);
        assert(text.skip(4)[1] == text[5]);
        assert(text.skip(4)[2] == text[6]);
    }
}

} // verus!
