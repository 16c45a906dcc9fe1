//! The diagnostic reported by the external composition engine: its typed
//! shape, the rules for decoding it from a JSON object, and its rendering as
//! a single human-readable line.

use crate::json::{json_object, json_text, map_of_pairs, value_object_entries, value_text};
use vstd::prelude::*;

verus! {

/// One decoded error report from the external composition engine: a
/// human-readable message plus an optional structured extension block.
pub struct Diagnostic {
    /// A human-readable description of the problem; absent when the engine
    /// reported an error with no message.
    pub message: Option<String>,
    /// Structured metadata, present only when the engine attached any.
    pub extensions: Option<ErrorExtensions>,
}

/// The extension block of a diagnostic: a mandatory classification code plus
/// every further field of the object, preserved verbatim.
pub struct ErrorExtensions {
    /// The engine's classification code, drawn from an open vocabulary.
    pub code: String,
    /// Every extension field besides `code`, kept as it arrived so that
    /// fields unknown to this bridge version are neither dropped nor
    /// rejected.
    pub other: Vec<(String, serde_json::Value)>,
}

/// Why a JSON value failed to decode into a [`Diagnostic`].
#[derive(Clone, Copy, Debug, PartialEq, Eq, Structural)]
pub enum DecodeError {
    /// The value is not a JSON object.
    NotAnObject,
    /// The `message` field is present but not a string.
    MessageNotAString,
    /// The `code` field is present but not a string.
    CodeNotAString,
    /// Extension fields are present but the mandatory `code` field is
    /// absent.
    MissingCode,
}

/// The mathematical shape of a [`Diagnostic`].
pub struct DiagnosticView {
    pub message: Option<Seq<char>>,
    pub extensions: Option<ExtensionsView>,
}

/// The mathematical shape of an [`ErrorExtensions`].
pub struct ExtensionsView {
    pub code: Seq<char>,
    pub other: Map<Seq<char>, serde_json::Value>,
}

impl View for ErrorExtensions {
    type V = ExtensionsView;

    open spec fn view(&self) -> ExtensionsView {
        ExtensionsView { code: self.code@, other: map_of_pairs(self.other@) }
    }
}

impl View for Diagnostic {
    type V = DiagnosticView;

    open spec fn view(&self) -> DiagnosticView {
        DiagnosticView {
            message: match self.message {
                Some(m) => Some(m@),
                None => None,
            },
            extensions: match self.extensions {
                Some(e) => Some(e@),
                None => None,
            },
        }
    }
}

/// The view of an optional owned string.
pub open spec fn opt_view(o: Option<String>) -> Option<Seq<char>> {
    match o {
        Some(s) => Some(s@),
        None => None,
    }
}

/// The `k` field of the object `f`: absent (`None`), present but not a
/// string (`Some(None)`), or present with the given text (`Some(Some(t))`).
pub open spec fn field_text(f: Map<Seq<char>, serde_json::Value>, k: Seq<char>) -> Option<
    Option<Seq<char>>,
> {
    if f.contains_key(k) {
        Some(json_text(f[k]))
    } else {
        None
    }
}

/// The text of the `k` field of `f`, when it is present and a string.
pub open spec fn text_field(f: Map<Seq<char>, serde_json::Value>, k: Seq<char>) -> Option<
    Seq<char>,
> {
    match field_text(f, k) {
        Some(Some(t)) => Some(t),
        _ => None,
    }
}

/// The passthrough fields of the object `f`: everything besides `message`
/// and `code`.
pub open spec fn others_of(f: Map<Seq<char>, serde_json::Value>) -> Map<
    Seq<char>,
    serde_json::Value,
> {
    f.remove("message"@).remove("code"@)
}

/// Whether the object `f` holds an extension field: anything besides
/// `message` and `code`.
pub open spec fn has_extension_field(f: Map<Seq<char>, serde_json::Value>) -> bool {
    exists|k: Seq<char>| f.contains_key(k) && k != "message"@ && k != "code"@
}

/// What decoding an object with the field map `f` yields.
///
/// `message` and `code` must be strings when present; every other field
/// is an extension field, legal only alongside a `code`; an object with
/// only `message`, or with nothing, has no extensions.
pub open spec fn decode_spec(f: Map<Seq<char>, serde_json::Value>) -> Result<
    DiagnosticView,
    DecodeError,
> {
    if field_text(f, "message"@) matches Some(None) {
        Err(DecodeError::MessageNotAString)
    } else if field_text(f, "code"@) matches Some(None) {
        Err(DecodeError::CodeNotAString)
    } else if field_text(f, "code"@) is None && has_extension_field(f) {
        Err(DecodeError::MissingCode)
    } else {
        Ok(
            DiagnosticView {
                message: text_field(f, "message"@),
                extensions: match field_text(f, "code"@) {
                    Some(Some(c)) => Some(ExtensionsView { code: c, other: others_of(f) }),
                    _ => None,
                },
            },
        )
    }
}

/// The single human-readable line that a diagnostic renders as.
pub open spec fn render_spec(d: DiagnosticView) -> Seq<char> {
    let code = match d.extensions {
        Some(e) => e.code,
        None => "UNKNOWN"@,
    };
    match d.message {
        Some(m) => code + ": "@ + m,
        None => code,
    }
}

/// The view of a decode result.
pub open spec fn result_view(r: Result<Diagnostic, DecodeError>) -> Result<
    DiagnosticView,
    DecodeError,
> {
    match r {
        Ok(d) => Ok(d@),
        Err(e) => Err(e),
    }
}

/// Decoding loses nothing: for every triple of an optional message text, a
/// code text and a passthrough map, decoding the object assembled from them
/// succeeds and yields back exactly that message, that code and that map.
pub proof fn lemma_decode_round_trip(
    msg_v: Option<serde_json::Value>,
    msg_t: Option<Seq<char>>,
    code_v: serde_json::Value,
    code_t: Seq<char>,
    other: Map<Seq<char>, serde_json::Value>,
)
    requires
        msg_v matches Some(v) ==> msg_t matches Some(t) && json_text(v) == Some(t),
        msg_v is None ==> msg_t is None,
        json_text(code_v) == Some(code_t),
        !other.contains_key("message"@),
        !other.contains_key("code"@),
    ensures
        ({
            let with_msg = match msg_v {
                Some(v) => other.insert("message"@, v),
                None => other,
            };
            decode_spec(with_msg.insert("code"@, code_v)) == Ok::<_, DecodeError>(
                DiagnosticView {
                    message: msg_t,
                    extensions: Some(ExtensionsView { code: code_t, other }),
                },
            )
        }),
{
    reveal_strlit("message");
    reveal_strlit("code");
    assert("message"@.len() == 7);
    assert("code"@.len() == 4);
    let with_msg = match msg_v {
        Some(v) => other.insert("message"@, v),
        None => other,
    };
    let f = with_msg.insert("code"@, code_v);
    assert(others_of(f) =~= other);
}

proof fn lemma_map_of_pairs_take_step(s: Seq<(String, serde_json::Value)>, i: int)
    requires
        0 <= i < s.len(),
    ensures
        map_of_pairs(s.take(i + 1)) == map_of_pairs(s.take(i)).insert(s[i].0@, s[i].1),
{
    assert(s.take(i + 1).drop_last() =~= s.take(i));
    assert(s.take(i + 1).last() == s[i]);
}

impl Diagnostic {
    /// A diagnostic made by the bridge itself, for a failure unrelated to
    /// the external engine: the given message and no extensions.
    pub fn generic(message: String) -> (r: Diagnostic)
        ensures
            r@.message == Some(message@),
            r@.extensions is None,
    {
        Diagnostic { message: Some(message), extensions: None }
    }

    /// Decode the fields of one JSON object, given as key-value entries,
    /// into a diagnostic; a later entry with a repeated key wins, as in the
    /// field map of the object it came from.
    pub fn decode_fields(fields: Vec<(String, serde_json::Value)>) -> (r: Result<
        Diagnostic,
        DecodeError,
    >)
        ensures
            result_view(r) == decode_spec(map_of_pairs(fields@)),
    {
        let ghost all = fields@;
        let message_key: String = "message".to_owned();
        let code_key: String = "code".to_owned();
        proof {
            reveal_strlit("message");
            reveal_strlit("code");
            assert("message"@.len() == 7);
            assert("code"@.len() == 4);
        }
        let mut rest = fields;
        let mut message: Option<String> = None;
        let mut message_bad: bool = false;
        let mut code: Option<String> = None;
        let mut code_bad: bool = false;
        let mut other: Vec<(String, serde_json::Value)> = Vec::new();
        let ghost mut i: int = 0;
        while rest.len() > 0
            invariant
                0 <= i <= all.len(),
                rest@ == all.skip(i),
                message_key@ == "message"@,
                code_key@ == "code"@,
                "message"@ != "code"@,
                message_bad <==> field_text(map_of_pairs(all.take(i)), "message"@) matches Some(
                    None,
                ),
                !message_bad ==> opt_view(message) == text_field(
                    map_of_pairs(all.take(i)),
                    "message"@,
                ),
                code_bad <==> field_text(map_of_pairs(all.take(i)), "code"@) matches Some(None),
                !code_bad ==> opt_view(code) == text_field(map_of_pairs(all.take(i)), "code"@),
                map_of_pairs(other@) == others_of(map_of_pairs(all.take(i))),
                other@.len() > 0 <==> has_extension_field(map_of_pairs(all.take(i))),
            decreases rest@.len(),
        {
            proof {
                assert(rest@[0] == all[i]);
                lemma_map_of_pairs_take_step(all, i);
            }
            let ghost f_prev = map_of_pairs(all.take(i));
            let ghost f_next = map_of_pairs(all.take(i + 1));
            let (k, v) = rest.remove(0);
            proof {
                assert(rest@ =~= all.skip(i + 1));
            }
            if k == message_key || k == code_key {
                let is_message = k == message_key;
                match value_text(&v) {
                    Some(s) => {
                        if is_message {
                            message = Some(s);
                            message_bad = false;
                        } else {
                            code = Some(s);
                            code_bad = false;
                        }
                    },
                    None => {
                        if is_message {
                            message = None;
                            message_bad = true;
                        } else {
                            code = None;
                            code_bad = true;
                        }
                    },
                }
                proof {
                    assert(others_of(f_next) =~= others_of(f_prev));
                    if has_extension_field(f_next) {
                        let k2 = choose|k2: Seq<char>|
                            f_next.contains_key(k2) && k2 != "message"@ && k2 != "code"@;
                        assert(f_prev.contains_key(k2));
                    }
                    if has_extension_field(f_prev) {
                        let k2 = choose|k2: Seq<char>|
                            f_prev.contains_key(k2) && k2 != "message"@ && k2 != "code"@;
                        assert(f_next.contains_key(k2));
                    }
                }
            } else {
                let ghost other_prev = other@;
                other.push((k, v));
                proof {
                    assert(other@.drop_last() =~= other_prev);
                    assert(other@.last() == (k, v));
                    assert(map_of_pairs(other@) == map_of_pairs(other_prev).insert(k@, v));
                    assert(others_of(f_next) =~= others_of(f_prev).insert(k@, v));
                    assert(f_next.contains_key(k@) && k@ != "message"@ && k@ != "code"@);
                }
            }
            proof {
                i = i + 1;
            }
        }
        proof {
            assert(all.take(i) =~= all);
        }
        if message_bad {
            return Err(DecodeError::MessageNotAString);
        }
        if code_bad {
            return Err(DecodeError::CodeNotAString);
        }
        match code {
            Some(c) => Ok(
                Diagnostic { message, extensions: Some(ErrorExtensions { code: c, other }) },
            ),
            None => {
                if other.len() > 0 {
                    Err(DecodeError::MissingCode)
                } else {
                    Ok(Diagnostic { message, extensions: None })
                }
            },
        }
    }

    /// Render the diagnostic as its single human-readable line: the
    /// extension code (or the placeholder `UNKNOWN` without extensions),
    /// then `: ` and the message when there is one.
    pub fn render(&self) -> (r: String)
        ensures
            r@ == render_spec(self@),
    {
        let mut out: String = match &self.extensions {
            Some(e) => e.code.clone(),
            None => "UNKNOWN".to_owned(),
        };
        match &self.message {
            Some(m) => {
                out.append(": ");
                out.append(m.as_str());
            },
            None => {},
        }
        out
    }

    /// Decode one JSON value into a diagnostic. The value must be an
    /// object; its fields are then decoded as [`Self::decode_fields`] says.
    pub fn decode(v: &serde_json::Value) -> (r: Result<Diagnostic, DecodeError>)
        ensures
            match json_object(*v) {
                Some(f) => result_view(r) == decode_spec(f),
                None => result_view(r) == Err::<DiagnosticView, _>(DecodeError::NotAnObject),
            },
    {
        match value_object_entries(v) {
            Some(entries) => Self::decode_fields(entries),
            None => Err(DecodeError::NotAnObject),
        }
    }
}

} // verus!
