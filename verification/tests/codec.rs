use day_piece_webview::{decode, engine_error, js_string_literal, wrap_script, EvalError, SEP};

/// Build a reply the way an arm would, without a literal control char in the test source.
fn reply(parts: &[&str]) -> String {
    parts.join(&SEP.to_string())
}

#[test]
fn decodes_a_value() {
    assert_eq!(decode(&reply(&["1", "2"])), Ok("2".into()));
    assert_eq!(decode(&reply(&["1", "null"])), Ok("null".into()));
    let obj = r#"{"a":1,"b":"x"}"#;
    assert_eq!(decode(&reply(&["1", obj])), Ok(obj.into()));
}

#[test]
fn decodes_a_throw() {
    assert_eq!(
        decode(&reply(&["0", "TypeError", "boom"])),
        Err(EvalError::Threw {
            name: "TypeError".into(),
            message: "boom".into(),
        })
    );
}

/// Only the FIRST separator splits the name off, so a message carrying more stays intact.
#[test]
fn a_message_may_contain_the_separator() {
    assert_eq!(
        decode(&reply(&["0", "Error", "a", "b"])),
        Err(EvalError::Threw {
            name: "Error".into(),
            message: reply(&["a", "b"]),
        })
    );
}

/// JSON text can never hold a RAW separator, so splitting on it cannot corrupt a value.
#[test]
fn an_escaped_separator_inside_json_survives() {
    let json = r#""a\u001fb""#;
    assert_eq!(decode(&reply(&["1", json])), Ok(json.into()));
}

#[test]
fn an_undecodable_reply_is_an_engine_error() {
    assert_eq!(decode(""), Err(EvalError::Engine(String::new())));
    // What a backend reports when the wrapper never ran at all.
    assert_eq!(decode("null"), Err(EvalError::Engine("null".into())));
}

/// The arms build engine failures with `engine_error`; it must decode like any other throw.
#[test]
fn engine_errors_round_trip() {
    assert_eq!(
        decode(&engine_error("WebKitError", "process gone")),
        Err(EvalError::Threw {
            name: "WebKitError".into(),
            message: "process gone".into(),
        })
    );
}

/// The script rides inside a string literal, so nothing in it can reach the wrapper's own
/// tokens: a trailing line comment, an unbalanced brace, a quote, a newline.
#[test]
fn the_wrapper_is_lexically_sealed() {
    for hostile in [
        "1 + 1 // add",
        "\"unterminated",
        "}}})(){{{",
        "a\nb",
        "x\\y",
    ] {
        let js = wrap_script(hostile);
        assert!(
            js.trim_end().ends_with("})()"),
            "wrapper not closed for {hostile:?}: {js}"
        );
        assert!(
            !js.contains("\n"),
            "raw newline leaked for {hostile:?}: {js}"
        );
    }
}

#[test]
fn escapes_a_script_into_a_literal() {
    assert_eq!(js_string_literal("a"), "\"a\"");
    assert_eq!(js_string_literal("a\"b"), "\"a\\\"b\"");
    assert_eq!(js_string_literal("a\\b"), "\"a\\\\b\"");
    assert_eq!(js_string_literal("a\nb"), "\"a\\nb\"");
    // A literal line terminator would end the string mid-source.
    assert_eq!(js_string_literal("a\u{2028}b"), "\"a\\u2028b\"");
    assert_eq!(js_string_literal("a\u{1}b"), "\"a\\u0001b\"");
}

#[test]
fn every_control_character_is_escaped_in_lowercase_hex() {
    assert_eq!(js_string_literal("\r\t\u{2029}"), "\"\\r\\t\\u2029\"");
    assert_eq!(js_string_literal("\u{0}\u{1f}\u{b}"), "\"\\u0000\\u001f\\u000b\"");
    assert_eq!(js_string_literal("\u{7f}é€😀"), "\"\u{7f}é€😀\"");
    assert_eq!(js_string_literal(""), "\"\"");
}

#[test]
fn the_envelope_is_the_documented_program() {
    let script = "var a = 1; a + 1";
    let src = js_string_literal(script);
    let expected = format!(
        "(function(){{var v;\
         try{{v=eval({src});}}\
         catch(e){{return \"0\\u001f\"+((e&&e.name)||\"Error\")+\"\\u001f\"+((e&&e.message)||String(e));}}\
         try{{var s=JSON.stringify(v);return \"1\\u001f\"+(s===undefined?\"null\":s);}}\
         catch(e){{return \"0\\u001f\"+((e&&e.name)||\"TypeError\")+\"\\u001f\"+((e&&e.message)||String(e));}}\
         }})()"
    );
    assert_eq!(wrap_script(script), expected);
    assert!(wrap_script(script).starts_with("(function(){var v;try{v=eval(\"var a = 1; a + 1\");}"));
}

#[test]
fn a_throw_without_a_message_separator_is_an_error() {
    assert_eq!(
        decode(&reply(&["0", "just text"])),
        Err(EvalError::Threw {
            name: "Error".into(),
            message: "just text".into(),
        })
    );
}

#[test]
fn only_a_one_or_zero_tag_decodes() {
    assert_eq!(decode(&reply(&["2", "x"])), Err(EvalError::Engine(reply(&["2", "x"]))));
    assert_eq!(decode(&reply(&["10", "x"])), Err(EvalError::Engine(reply(&["10", "x"]))));
    assert_eq!(decode(&reply(&["", "x"])), Err(EvalError::Engine(reply(&["", "x"]))));
    assert_eq!(decode("1"), Err(EvalError::Engine("1".into())));
    assert_eq!(decode(&reply(&["1", ""])), Ok(String::new()));
}

#[test]
fn a_value_reply_keeps_every_later_separator() {
    assert_eq!(decode(&reply(&["1", "a", "b"])), Ok(reply(&["a", "b"])));
}

#[test]
fn engine_error_is_tag_name_message() {
    assert_eq!(engine_error("N", "M"), reply(&["0", "N", "M"]));
    assert_eq!(
        decode(&engine_error("N", &reply(&["m1", "m2"]))),
        Err(EvalError::Threw {
            name: "N".into(),
            message: reply(&["m1", "m2"]),
        })
    );
}

#[test]
fn errors_read_as_sentences() {
    assert_eq!(EvalError::Unsupported.to_string(), "javascript evaluation is unsupported here");
    assert_eq!(EvalError::ViewGone.to_string(), "the web view is gone");
    assert_eq!(
        EvalError::Threw {
            name: "TypeError".into(),
            message: "boom".into()
        }
        .to_string(),
        "TypeError: boom"
    );
    assert_eq!(EvalError::Engine("null".into()).to_string(), "undecodable reply: null");
}
