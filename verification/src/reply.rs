//! The replies an evaluation sends back, and what they decode to.
//!
//! The envelope answers `1␟<json>` for a value and `0␟<name>␟<message>` for a throw, with ␟ the
//! raw U+001F. JSON text never holds that character raw (`JSON.stringify` escapes every control
//! character as six ASCII characters), so splitting on it needs no JSON parser.

use vstd::prelude::*;
use crate::text::{
    chars_of, find_from, first_index, is_first_index, lemma_first_index_exists,
    lemma_first_index_is_first, lemma_first_index_none, lemma_first_index_unique, push_char,
    push_str, split_once, string_of,
};

verus! {

broadcast use vstd::string::group_string_axioms;

/// Field separator inside an evaluation reply.
pub const SEP: char = '\u{1f}';

/// Why an evaluation did not produce a value.
#[derive(Clone, Debug, PartialEq, Eq)]
pub enum EvalError {
    /// This backend has no engine to evaluate in (web-dom's `<iframe>`, or no renderer at all).
    Unsupported,
    /// The script threw. `name`/`message` come from the caught exception; a cyclic value that
    /// `JSON.stringify` refuses arrives here too, as a `TypeError`.
    Threw { name: String, message: String },
    /// The web view was never realized, or went away before the reply arrived.
    ViewGone,
    /// The engine ran but the reply did not decode: the raw payload is included.
    Engine(String),
}

/// [`EvalError`] with its texts taken as character sequences.
pub enum EvalFailure {
    Unsupported,
    Threw { name: Seq<char>, message: Seq<char> },
    ViewGone,
    Engine(Seq<char>),
}

impl View for EvalError {
    type V = EvalFailure;

    open spec fn view(&self) -> EvalFailure {
        match self {
            EvalError::Unsupported => EvalFailure::Unsupported,
            EvalError::Threw { name, message } => EvalFailure::Threw { name: name@, message: message@ },
            EvalError::ViewGone => EvalFailure::ViewGone,
            EvalError::Engine(raw) => EvalFailure::Engine(raw@),
        }
    }
}

/// The outcome of an evaluation with its texts taken as character sequences.
pub open spec fn outcome_view(r: Result<String, EvalError>) -> Result<Seq<char>, EvalFailure> {
    match r {
        Ok(json) => Ok(json@),
        Err(e) => Err(e@),
    }
}

/// What a reply decodes to. A reply whose text before the first separator is `1` carries a value,
/// everything after that separator; one whose text before it is `0` carries a throw, whose name
/// runs to the next separator and whose message is the rest (a throw with no second separator is
/// an `Error` with the whole rest as its message). Anything else is an engine failure that
/// carries the payload.
pub open spec fn decode_reply(payload: Seq<char>) -> Result<Seq<char>, EvalFailure> {
    match split_once(payload, SEP) {
        Some((tag, json)) if tag == seq!['1'] => Ok(json),
        Some((tag, rest)) if tag == seq!['0'] => match split_once(rest, SEP) {
            Some((name, message)) => Err(EvalFailure::Threw { name, message }),
            None => Err(EvalFailure::Threw { name: "Error"@, message: rest }),
        },
        _ => Err(EvalFailure::Engine(payload)),
    }
}

/// The reply a backend builds for an engine failure.
pub open spec fn engine_reply(name: Seq<char>, message: Seq<char>) -> Seq<char> {
    seq!['0', SEP] + name + seq![SEP] + message
}

/// The reply the envelope sends for a value whose JSON text is `json`.
pub open spec fn value_reply(json: Seq<char>) -> Seq<char> {
    seq!['1', SEP] + json
}

/// Build a reply an arm can send when the engine failed rather than the script: a dead content
/// process, a missing web view, a reply of the wrong type. Shaped like the envelope's own error
/// reply so [`decode`] needs only one format.
pub fn engine_error(name: &str, message: &str) -> (out: String)
    ensures
        out@ == engine_reply(name@, message@),
{
    let mut out = String::new();
    push_char(&mut out, '0');
    push_char(&mut out, SEP);
    push_str(&mut out, name);
    push_char(&mut out, SEP);
    push_str(&mut out, message);
    out
}

/// Decode one reply produced by the envelope. `undefined` and the values `JSON.stringify` drops
/// (a function, a symbol) both arrive as `null`, so a value's payload is always JSON text.
pub fn decode(payload: &str) -> (r: Result<String, EvalError>)
    ensures
        outcome_view(r) == decode_reply(payload@),
{
    let v = chars_of(payload);
    assert(v@.skip(0) == v@);
    match find_from(&v, 0, SEP) {
        None => {
            proof {
                lemma_first_index_none(payload@, SEP);
            }
            Err(EvalError::Engine(string_of(&v, 0, v.len())))
        },
        Some(i) => {
            proof {
                lemma_first_index_unique(payload@, SEP, i as int);
            }
            assert(v@.take(i as int) == v@.subrange(0, i as int));
            assert(v@.skip(i + 1) == v@.subrange(i + 1, v@.len() as int));
            if i == 1 && v[0] == '1' {
                assert(v@.take(1) == seq!['1']);
                Ok(string_of(&v, 2, v.len()))
            } else if i == 1 && v[0] == '0' {
                assert(v@.take(1) == seq!['0']);
                let ghost rest = v@.skip(2);
                match find_from(&v, 2, SEP) {
                    Some(j) => {
                        assert(j < v.len());
                        proof {
                            lemma_first_index_unique(rest, SEP, j - 2);
                        }
                        assert(rest.take(j - 2) == v@.subrange(2, j as int));
                        assert(rest.skip(j - 2 + 1) == v@.subrange(j + 1, v@.len() as int));
                        Err(
                            EvalError::Threw {
                                name: string_of(&v, 2, j),
                                message: string_of(&v, j + 1, v.len()),
                            },
                        )
                    },
                    None => {
                        proof {
                            lemma_first_index_none(rest, SEP);
                        }
                        assert(rest == v@.subrange(2, v@.len() as int));
                        Err(
                            EvalError::Threw {
                                name: String::from_str("Error"),
                                message: string_of(&v, 2, v.len()),
                            },
                        )
                    },
                }
            } else {
                assert(v@.take(i as int) != seq!['1'] && v@.take(i as int) != seq!['0']) by {
                    if i == 1 {
                        assert(v@.take(1) =~= seq![v@[0]]);
                    } else {
                        assert(v@.take(i as int).len() != 1);
                    }
                }
                assert(v@.subrange(0, v@.len() as int) == v@);
                Err(EvalError::Engine(string_of(&v, 0, v.len())))
            }
        },
    }
}

impl EvalError {
    /// The message a person reads for this error.
    pub open spec fn message_text(&self) -> Seq<char> {
        match self {
            EvalError::Unsupported => "javascript evaluation is unsupported here"@,
            EvalError::Threw { name, message } => name@ + ": "@ + message@,
            EvalError::ViewGone => "the web view is gone"@,
            EvalError::Engine(raw) => "undecodable reply: "@ + raw@,
        }
    }

    /// The message a person reads for this error: `name: message` for a throw, a fixed sentence
    /// for the other kinds (the raw payload follows it for an undecodable reply).
    pub fn to_string(&self) -> (s: String)
        ensures
            s@ == self.message_text(),
    {
        match self {
            EvalError::Unsupported => String::from_str("javascript evaluation is unsupported here"),
            EvalError::Threw { name, message } => {
                let mut s = String::new();
                push_str(&mut s, name.as_str());
                push_str(&mut s, ": ");
                push_str(&mut s, message.as_str());
                s
            },
            EvalError::ViewGone => String::from_str("the web view is gone"),
            EvalError::Engine(raw) => {
                let mut s = String::new();
                push_str(&mut s, "undecodable reply: ");
                push_str(&mut s, raw.as_str());
                s
            },
        }
    }
}

/// A reply built by [`engine_error`] decodes to the throw it describes, whenever the name holds no
/// separator; the message may hold any number of them, since only the first separator after the
/// tag splits the name off.
pub proof fn law_engine_error_round_trip(name: Seq<char>, message: Seq<char>)
    requires
        !name.contains(SEP),
    ensures
        decode_reply(engine_reply(name, message)) == Err::<Seq<char>, EvalFailure>(
            EvalFailure::Threw { name, message },
        ),
{
    let p = engine_reply(name, message);
    assert(is_first_index(p, SEP, 1));
    lemma_first_index_unique(p, SEP, 1);
    assert(p.take(1) == seq!['0']);
    let rest = p.skip(2);
    assert(rest == name + seq![SEP] + message);
    assert(is_first_index(rest, SEP, name.len() as int)) by {
        assert forall|j: int| 0 <= j < name.len() implies rest[j] != SEP by {
            assert(rest[j] == name[j]);
        }
    }
    lemma_first_index_unique(rest, SEP, name.len() as int);
    assert(rest.take(name.len() as int) == name);
    assert(rest.skip(name.len() as int + 1) == message);
    assert(split_once(p, SEP) == Some((seq!['0'], rest)));
    assert(split_once(rest, SEP) == Some((name, message)));
    assert(seq!['0'][0] != seq!['1'][0]);
}

/// A value reply decodes to exactly the JSON text it carries, whatever that text holds: the
/// first separator is the one after the tag.
pub proof fn law_value_round_trip(json: Seq<char>)
    ensures
        decode_reply(value_reply(json)) == Ok::<Seq<char>, EvalFailure>(json),
{
    let p = value_reply(json);
    assert(is_first_index(p, SEP, 1));
    lemma_first_index_unique(p, SEP, 1);
    assert(p.take(1) == seq!['1']);
    assert(p.skip(2) == json);
}

/// What a decoded reply says about the reply it came from: a value came from `1␟` and exactly its
/// JSON; a throw came from `0␟`, its name (which holds no separator), `␟` and its message, or,
/// with no second separator, from `0␟` and its message under the name `Error`; an engine failure
/// carries the reply unchanged, and comes only from replies that do not start with `1␟` or `0␟`.
pub proof fn law_decode_reads_what_was_sent(p: Seq<char>)
    ensures
        decode_reply(p) matches Ok(json) ==> p == seq!['1', '\u{1f}'] + json,
        decode_reply(p) matches Err(EvalFailure::Threw { name, message }) ==> {
            ||| !name.contains('\u{1f}') && p == seq!['0', '\u{1f}'] + name + seq!['\u{1f}']
                + message
            ||| name == seq!['E', 'r', 'r', 'o', 'r'] && !message.contains('\u{1f}') && p
                == seq!['0', '\u{1f}'] + message
        },
        decode_reply(p) matches Err(EvalFailure::Engine(raw)) ==> {
            &&& raw == p
            &&& !(p.len() >= 2 && (p[0] == '0' || p[0] == '1') && p[1] == '\u{1f}')
        },
        !(decode_reply(p) matches Err(EvalFailure::Unsupported)),
        !(decode_reply(p) matches Err(EvalFailure::ViewGone)),
{
    reveal_strlit("Error");
    assert("Error"@ =~= seq!['E', 'r', 'r', 'o', 'r']);
    if p.len() >= 2 && (p[0] == '0' || p[0] == '1') && p[1] == SEP {
        assert(is_first_index(p, SEP, 1));
        lemma_first_index_unique(p, SEP, 1);
        assert(p.take(1) =~= seq![p[0]]);
        assert(seq![p[0]] + seq![SEP] + p.skip(2) =~= p);
        if p[0] == '1' {
            assert(p.take(1) == seq!['1']);
        } else {
            assert(p.take(1) == seq!['0']);
            assert(seq!['0'][0] != seq!['1'][0]);
            let rest = p.skip(2);
            match first_index(rest, SEP) {
                Some(k) => {
                    lemma_first_index_is_first(rest, SEP);
                    let name = rest.take(k);
                    assert(!name.contains(SEP)) by {
                        if name.contains(SEP) {
                            let t = choose|t: int| 0 <= t < name.len() && name[t] == SEP;
                            assert(rest[t] == SEP);
                        }
                    }
                    assert(name + seq![SEP] + rest.skip(k + 1) =~= rest);
                    assert(seq!['0', SEP] + name + seq![SEP] + rest.skip(k + 1) =~= p);
                },
                None => {
                    assert(!rest.contains(SEP)) by {
                        if rest.contains(SEP) {
                            let t = choose|t: int| 0 <= t < rest.len() && rest[t] == SEP;
                            lemma_first_index_exists(rest, SEP, t);
                        }
                    }
                    assert(seq!['0', SEP] + rest =~= p);
                },
            }
        }
    } else {
        match first_index(p, SEP) {
            Some(i) => {
                lemma_first_index_is_first(p, SEP);
                if p.take(i) == seq!['1'] || p.take(i) == seq!['0'] {
                    assert(p.take(i).len() == 1);
                    assert(p.take(i)[0] == p[0]);
                }
            },
            None => {},
        }
    }
}

/// The message a person reads for a throw is its name, `": "`, and its message, in that order;
/// an undecodable reply's message ends with the raw reply.
pub proof fn law_error_messages(e: EvalError)
    ensures
        e matches EvalError::Threw { name, message } ==> e.message_text() == name@ + seq![':', ' ']
            + message@,
        e matches EvalError::Engine(raw) ==> e.message_text().len() >= raw@.len() && e.message_text().skip(
            e.message_text().len() - raw@.len(),
        ) == raw@,
        e matches EvalError::Engine(raw) ==> e.message_text() == "undecodable reply: "@ + raw@,
        e is Unsupported ==> e.message_text() == "javascript evaluation is unsupported here"@,
        e is ViewGone ==> e.message_text() == "the web view is gone"@,
{
    reveal_strlit(": ");
    assert(": "@ =~= seq![':', ' ']);
    if let EvalError::Engine(raw) = e {
        let pre = "undecodable reply: "@;
        assert((pre + raw@).skip((pre + raw@).len() - raw@.len()) =~= raw@);
    }
}

} // verus!
