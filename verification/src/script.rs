//! The JavaScript envelope a script is evaluated in.
//!
//! A user script travels to the engine as a JavaScript string literal handed to `eval`, inside a
//! wrapper that reports `1␟<json>` for a value and `0␟<name>␟<message>` for a throw. Passing the
//! script as a literal rather than splicing it in as source is what keeps a hostile script (a
//! trailing `//` comment, an unbalanced brace, a quote, a newline) from reaching the wrapper's own
//! tokens; [`law_literal_reads_back`] is the statement of that.

use vstd::prelude::*;
use crate::text::{push_char, push_str};

verus! {

broadcast use vstd::string::group_string_axioms;

/// The lowercase hexadecimal digit for `n` (`0..16`).
pub open spec fn hex_digit(n: u32) -> char {
    if n == 0 { '0' }
    else if n == 1 { '1' }
    else if n == 2 { '2' }
    else if n == 3 { '3' }
    else if n == 4 { '4' }
    else if n == 5 { '5' }
    else if n == 6 { '6' }
    else if n == 7 { '7' }
    else if n == 8 { '8' }
    else if n == 9 { '9' }
    else if n == 10 { 'a' }
    else if n == 11 { 'b' }
    else if n == 12 { 'c' }
    else if n == 13 { 'd' }
    else if n == 14 { 'e' }
    else { 'f' }
}

/// The value of a hexadecimal digit, either case.
pub open spec fn hex_value(d: char) -> Option<u32> {
    if '0' <= d && d <= '9' { Some((d as u32 - '0' as u32) as u32) }
    else if 'a' <= d && d <= 'f' { Some((d as u32 - 'a' as u32 + 10) as u32) }
    else if 'A' <= d && d <= 'F' { Some((d as u32 - 'A' as u32 + 10) as u32) }
    else { None }
}

/// How one character is written inside a double-quoted JavaScript string literal.
///
/// The quote and the backslash get their one-character escapes, as do `\n`, `\r` and `\t`.
/// U+2028 and U+2029 get named escapes because they are line terminators in JavaScript source
/// and would end the string; every other character below U+0020 becomes `\u00XX` (lowercase hex)
/// because a raw control character is not legal inside a literal either. Everything else stands
/// as itself.
pub open spec fn escape_char(c: char) -> Seq<char> {
    if c == '"' {
        seq!['\\', '"']
    } else if c == '\\' {
        seq!['\\', '\\']
    } else if c == '\n' {
        seq!['\\', 'n']
    } else if c == '\r' {
        seq!['\\', 'r']
    } else if c == '\t' {
        seq!['\\', 't']
    } else if c == '\u{2028}' {
        seq!['\\', 'u', '2', '0', '2', '8']
    } else if c == '\u{2029}' {
        seq!['\\', 'u', '2', '0', '2', '9']
    } else if (c as u32) < 0x20 {
        seq!['\\', 'u', '0', '0', hex_digit((c as u32) / 16), hex_digit((c as u32) % 16)]
    } else {
        seq![c]
    }
}

/// Every character of `s` escaped, in order.
pub open spec fn escape_text(s: Seq<char>) -> Seq<char>
    decreases s.len(),
{
    if s.len() == 0 {
        Seq::empty()
    } else {
        escape_char(s[0]) + escape_text(s.drop_first())
    }
}

/// `s` as a complete JavaScript string literal, quotes included.
pub open spec fn js_literal(s: Seq<char>) -> Seq<char> {
    seq!['"'] + escape_text(s) + seq!['"']
}

/// A character that may not stand raw inside a double-quoted literal: the closing quote, the
/// escape character, a control character, or one of the two Unicode line terminators.
pub open spec fn forbidden_raw(c: char) -> bool {
    c == '"' || c == '\\' || (c as u32) < 0x20 || c == '\u{2028}' || c == '\u{2029}'
}

/// The character a one-letter escape `\e` stands for.
pub open spec fn simple_escape(e: char) -> Option<char> {
    if e == 'n' { Some('\n') }
    else if e == 'r' { Some('\r') }
    else if e == 't' { Some('\t') }
    else if e == '"' { Some('"') }
    else if e == '\\' { Some('\\') }
    else { None }
}

/// The code a `\uXXXX` escape spells with the four hexadecimal digits `b[2..6]`.
pub open spec fn unicode_code(b: Seq<char>) -> Option<int> {
    match (hex_value(b[2]), hex_value(b[3]), hex_value(b[4]), hex_value(b[5])) {
        (Some(h0), Some(h1), Some(h2), Some(h3)) => Some(h0 * 4096 + h1 * 256 + h2 * 16 + h3),
        _ => None,
    }
}

/// The Unicode scalar value of `c`.
pub open spec fn code_of(c: char) -> int {
    c as int
}

/// The character whose code is `v`, if there is one.
pub open spec fn char_of(v: int) -> Option<char> {
    if exists|c: char| #[trigger] code_of(c) == v {
        Some(choose|c: char| #[trigger] code_of(c) == v)
    } else {
        None
    }
}

/// The text a JavaScript lexer reads from the body of a double-quoted string literal (what stands
/// between the quotes), or `None` where the body would not lex as one literal: a raw quote or line
/// terminator ends it early, and an escape must be complete.
pub open spec fn js_unescape(b: Seq<char>) -> Option<Seq<char>>
    decreases b.len(),
{
    if b.len() == 0 {
        Some(Seq::empty())
    } else if b[0] == '\\' {
        if b.len() >= 2 && simple_escape(b[1]) is Some {
            match js_unescape(b.skip(2)) {
                Some(r) => Some(seq![simple_escape(b[1])->0] + r),
                None => None,
            }
        } else if b.len() >= 6 && b[1] == 'u' && unicode_code(b) is Some && char_of(
            unicode_code(b)->0,
        ) is Some {
            match js_unescape(b.skip(6)) {
                Some(r) => Some(seq![char_of(unicode_code(b)->0)->0] + r),
                None => None,
            }
        } else {
            None
        }
    } else if forbidden_raw(b[0]) {
        None
    } else {
        match js_unescape(b.drop_first()) {
            Some(r) => Some(seq![b[0]] + r),
            None => None,
        }
    }
}

/// The exec counterpart of [`hex_digit`].
fn hex_digit_char(n: u32) -> (d: char)
    requires
        n < 16,
    ensures
        d == hex_digit(n),
{
    if n == 0 { '0' }
    else if n == 1 { '1' }
    else if n == 2 { '2' }
    else if n == 3 { '3' }
    else if n == 4 { '4' }
    else if n == 5 { '5' }
    else if n == 6 { '6' }
    else if n == 7 { '7' }
    else if n == 8 { '8' }
    else if n == 9 { '9' }
    else if n == 10 { 'a' }
    else if n == 11 { 'b' }
    else if n == 12 { 'c' }
    else if n == 13 { 'd' }
    else if n == 14 { 'e' }
    else { 'f' }
}

/// Appends the escaped form of `c`.
fn push_escaped(out: &mut String, c: char)
    ensures
        final(out)@ == old(out)@ + escape_char(c),
{
    let ghost start = out@;
    if c == '"' {
        push_char(out, '\\');
        push_char(out, '"');
    } else if c == '\\' {
        push_char(out, '\\');
        push_char(out, '\\');
    } else if c == '\n' {
        push_char(out, '\\');
        push_char(out, 'n');
    } else if c == '\r' {
        push_char(out, '\\');
        push_char(out, 'r');
    } else if c == '\t' {
        push_char(out, '\\');
        push_char(out, 't');
    } else if c == '\u{2028}' || c == '\u{2029}' {
        push_char(out, '\\');
        push_char(out, 'u');
        push_char(out, '2');
        push_char(out, '0');
        push_char(out, '2');
        if c == '\u{2028}' {
            push_char(out, '8');
        } else {
            push_char(out, '9');
        }
    } else if (c as u32) < 0x20 {
        let v = c as u32;
        push_char(out, '\\');
        push_char(out, 'u');
        push_char(out, '0');
        push_char(out, '0');
        push_char(out, hex_digit_char(v / 16));
        push_char(out, hex_digit_char(v % 16));
    } else {
        push_char(out, c);
    }
    assert(out@ == start + escape_char(c));
}

/// Escaping distributes over appending one character.
pub proof fn lemma_escape_text_push(s: Seq<char>, c: char)
    ensures
        escape_text(s.push(c)) == escape_text(s) + escape_char(c),
    decreases s.len(),
{
    if s.len() == 0 {
        assert(s.push(c).drop_first() == Seq::<char>::empty());
        assert(escape_text(s.push(c)) == escape_char(c) + escape_text(Seq::<char>::empty()));
    } else {
        lemma_escape_text_push(s.drop_first(), c);
        assert(s.push(c).drop_first() == s.drop_first().push(c));
        assert(s.push(c)[0] == s[0]);
    }
}

/// Escape `s` into a JavaScript string literal, quotes included.
///
/// U+2028 and U+2029 get named escapes because they are literal line terminators in JS source and
/// would end the string; everything below U+0020 goes to `\uXXXX` because a raw control character
/// is not legal inside a literal either.
pub fn js_string_literal(s: &str) -> (out: String)
    ensures
        out@ == js_literal(s@),
{
    let mut out = String::new();
    push_char(&mut out, '"');
    for c in it: s.chars()
        invariant
            it.seq() == s@,
            out@ == seq!['"'] + escape_text(s@.take(it.index() as int)),
    {
        let ghost before = s@.take(it.index() as int);
        push_escaped(&mut out, c);
        proof {
            lemma_escape_text_push(before, c);
            assert(s@.take(it.index() + 1) == before.push(c));
        }
    }
    assert(s@.take(s@.len() as int) == s@);
    push_char(&mut out, '"');
    out
}

/// Every character is the one character with its code.
pub proof fn lemma_char_of_code(c: char)
    ensures
        char_of(code_of(c)) == Some(c),
{
    assert(exists|x: char| #[trigger] code_of(x) == code_of(c));
    let x = choose|x: char| #[trigger] code_of(x) == code_of(c);
    assert(x as int == c as int);
    assert(x == c);
}

/// Reading back a digit that [`hex_digit`] wrote gives its value.
pub proof fn lemma_hex_digit_value(n: u32)
    requires
        n < 16,
    ensures
        hex_value(hex_digit(n)) == Some(n),
{
}

/// Lexing one escaped character followed by `rest` gives that character followed by the lexing
/// of `rest`.
pub proof fn lemma_unescape_one(c: char, rest: Seq<char>)
    ensures
        js_unescape(escape_char(c) + rest) == match js_unescape(rest) {
            Some(r) => Some(seq![c] + r),
            None => None,
        },
{
    let b = escape_char(c) + rest;
    let e = escape_char(c);
    if c == '"' || c == '\\' || c == '\n' || c == '\r' || c == '\t' {
        assert(b[0] == '\\');
        assert(b[1] == e[1]);
        assert(b.skip(2) == rest);
    } else if c == '\u{2028}' || c == '\u{2029}' || (c as u32) < 0x20 {
        assert(b[0] == '\\');
        assert(b[1] == 'u');
        assert(b[2] == e[2] && b[3] == e[3] && b[4] == e[4] && b[5] == e[5]);
        assert(b.skip(6) == rest);
        if (c as u32) < 0x20 && c != '\u{2028}' && c != '\u{2029}' {
            lemma_hex_digit_value((c as u32) / 16);
            lemma_hex_digit_value((c as u32) % 16);
            assert(unicode_code(b) == Some(c as int));
        } else if c == '\u{2028}' {
            assert(unicode_code(b) == Some(0x2028int));
        } else {
            assert(unicode_code(b) == Some(0x2029int));
        }
        lemma_char_of_code(c);
    } else {
        assert(b[0] == c);
        assert(!forbidden_raw(c));
        assert(b.drop_first() == rest);
    }
}

/// The literal body [`js_string_literal`] writes lexes back to exactly the text it was given: no
/// character of the script can close the literal early or leave it unterminated, so nothing in a
/// script reaches the tokens that surround the literal.
pub proof fn law_literal_reads_back(s: Seq<char>)
    ensures
        js_unescape(escape_text(s)) == Some(s),
    decreases s.len(),
{
    if s.len() == 0 {
    } else {
        law_literal_reads_back(s.drop_first());
        lemma_unescape_one(s[0], escape_text(s.drop_first()));
        assert(seq![s[0]] + s.drop_first() == s);
    }
}

/// What the envelope puts before the script literal.
pub open spec fn wrapper_head() -> Seq<char> {
    "(function(){var v;try{v=eval("@
}

/// What the envelope puts after the script literal: report a throw as `0␟<name>␟<message>`, and a
/// value as `1␟<json>`, with a second `try` for a value `JSON.stringify` refuses.
pub open spec fn wrapper_tail() -> Seq<char> {
    ");}catch(e){return \"0\\u001f\"+((e&&e.name)||\"Error\")+\"\\u001f\"+((e&&e.message)||String(e));}try{var s=JSON.stringify(v);return \"1\\u001f\"+(s===undefined?\"null\":s);}catch(e){return \"0\\u001f\"+((e&&e.name)||\"TypeError\")+\"\\u001f\"+((e&&e.message)||String(e));}})()"@
}

/// The whole program [`wrap_script`] builds for `script`.
pub open spec fn wrapped(script: Seq<char>) -> Seq<char> {
    wrapper_head() + js_literal(script) + wrapper_tail()
}

/// Wrap a user script so every backend reports errors the same way.
///
/// The script is handed to `eval` as a string literal rather than spliced in as source, so a
/// syntax error in it becomes catchable, statements work, and nothing in it can reach the
/// wrapper's own tokens. The reply is `1␟<json>` or `0␟<name>␟<message>`.
pub fn wrap_script(script: &str) -> (out: String)
    ensures
        out@ == wrapped(script@),
{
    let src = js_string_literal(script);
    let mut out = String::new();
    push_str(&mut out, "(function(){var v;try{v=eval(");
    push_str(&mut out, src.as_str());
    push_str(
        &mut out,
        ");}catch(e){return \"0\\u001f\"+((e&&e.name)||\"Error\")+\"\\u001f\"+((e&&e.message)||String(e));}try{var s=JSON.stringify(v);return \"1\\u001f\"+(s===undefined?\"null\":s);}catch(e){return \"0\\u001f\"+((e&&e.name)||\"TypeError\")+\"\\u001f\"+((e&&e.message)||String(e));}})()",
    );
    out
}

/// A character that ends a line in JavaScript source.
pub open spec fn is_line_terminator(c: char) -> bool {
    c == '\n' || c == '\r' || c == '\u{2028}' || c == '\u{2029}'
}

/// `s` holds no line terminator.
pub open spec fn single_line(s: Seq<char>) -> bool {
    forall|i: int| 0 <= i < s.len() ==> !is_line_terminator(#[trigger] s[i])
}

/// Joining two single-line texts gives a single-line text.
pub proof fn lemma_single_line_concat(a: Seq<char>, b: Seq<char>)
    requires
        single_line(a),
        single_line(b),
    ensures
        single_line(a + b),
{
    assert forall|i: int| 0 <= i < (a + b).len() implies !is_line_terminator(#[trigger] (a + b)[i]) by {
        if i < a.len() {
            assert((a + b)[i] == a[i]);
        } else {
            assert((a + b)[i] == b[i - a.len()]);
        }
    }
}

/// An escaped text never holds a raw line terminator.
pub proof fn lemma_escape_text_single_line(s: Seq<char>)
    ensures
        single_line(escape_text(s)),
    decreases s.len(),
{
    if s.len() > 0 {
        lemma_escape_text_single_line(s.drop_first());
        let c = s[0];
        let e = escape_char(c);
        if (c as u32) < 0x20 && c != '\n' && c != '\r' && c != '\t' {
            assert(hex_digit((c as u32) / 16) == '0' || hex_digit((c as u32) / 16) == '1');
        }
        assert(single_line(e));
        lemma_single_line_concat(e, escape_text(s.drop_first()));
    }
}

/// The envelope is one line ending in `})()`, whatever the script holds: a script with a newline,
/// a trailing `//` comment or an unbalanced brace cannot leave the wrapper unclosed.
pub proof fn law_wrapper_is_sealed(script: Seq<char>)
    ensures
        single_line(wrapped(script)),
        wrapped(script).len() >= 4,
        wrapped(script).skip(wrapped(script).len() - 4) == seq!['}', ')', '(', ')'],
{
    reveal_strlit("(function(){var v;try{v=eval(");
    reveal_strlit(
        ");}catch(e){return \"0\\u001f\"+((e&&e.name)||\"Error\")+\"\\u001f\"+((e&&e.message)||String(e));}try{var s=JSON.stringify(v);return \"1\\u001f\"+(s===undefined?\"null\":s);}catch(e){return \"0\\u001f\"+((e&&e.name)||\"TypeError\")+\"\\u001f\"+((e&&e.message)||String(e));}})()",
    );
    let head = wrapper_head();
    let tail = wrapper_tail();
    assert(single_line(head));
    assert(single_line(tail));
    lemma_escape_text_single_line(script);
    assert(single_line(seq!['"']));
    lemma_single_line_concat(seq!['"'], escape_text(script));
    lemma_single_line_concat(seq!['"'] + escape_text(script), seq!['"']);
    lemma_single_line_concat(head, js_literal(script));
    lemma_single_line_concat(head + js_literal(script), tail);
    let w = wrapped(script);
    assert(w.skip(w.len() - 4) == tail.skip(tail.len() - 4));
}

/// A literal is a quote, a body, and a quote, and its body lexes back to exactly the text it was
/// made from: every character of the text, newlines and quotes included, survives.
pub proof fn law_literal_is_quoted_and_reads_back(s: Seq<char>)
    ensures
        js_literal(s).len() >= 2,
        js_literal(s)[0] == '"',
        js_literal(s)[js_literal(s).len() - 1] == '"',
        js_unescape(js_literal(s).subrange(1, js_literal(s).len() - 1)) == Some(s),
{
    let l = js_literal(s);
    assert(l.subrange(1, l.len() - 1) == escape_text(s));
    law_literal_reads_back(s);
}

/// The envelope hands `eval` the script itself: the program is the fixed head, a string literal
/// whose body lexes back to exactly the script (newlines included), and the fixed tail that
/// reports the outcome.
pub proof fn law_envelope_hands_eval_the_script(script: Seq<char>)
    ensures
        ({
            let w = wrapped(script);
            let h = "(function(){var v;try{v=eval("@;
            let t = ");}catch(e){return \"0\\u001f\"+((e&&e.name)||\"Error\")+\"\\u001f\"+((e&&e.message)||String(e));}try{var s=JSON.stringify(v);return \"1\\u001f\"+(s===undefined?\"null\":s);}catch(e){return \"0\\u001f\"+((e&&e.name)||\"TypeError\")+\"\\u001f\"+((e&&e.message)||String(e));}})()"@;
            &&& w.len() >= h.len() + t.len() + 2
            &&& w.take(h.len() as int) == h
            &&& w.skip(w.len() - t.len()) == t
            &&& w[h.len() as int] == '"'
            &&& w[w.len() - t.len() - 1] == '"'
            &&& js_unescape(w.subrange(h.len() as int + 1, w.len() - t.len() - 1)) == Some(script)
        }),
{
    let w = wrapped(script);
    let h = wrapper_head();
    let t = wrapper_tail();
    let l = js_literal(script);
    law_literal_is_quoted_and_reads_back(script);
    assert(w.take(h.len() as int) == h);
    assert(w.skip(w.len() - t.len()) == t);
    assert(w[h.len() as int] == l[0]);
    assert(w[w.len() - t.len() - 1] == l[l.len() - 1]);
    assert(w.subrange(h.len() as int + 1, w.len() - t.len() - 1) == l.subrange(1, l.len() - 1));
}

} // verus!
