//! Conversion of a diagnostic into the host pipeline's `BuildError`: total,
//! and deliberately narrowing — only the code and the message cross this
//! seam, never the passthrough fields.

use crate::diagnostic::{decode_spec, opt_view, Diagnostic, DiagnosticView};
use apollo_federation_types::rover::BuildError;
use vstd::prelude::*;

verus! {

#[verifier::external_type_specification]
#[verifier::external_body]
pub struct ExBuildError(BuildError);

/// The classification code a `BuildError` holds. This names what
/// `BuildError::get_code` returns.
pub uninterp spec fn build_error_code(e: BuildError) -> Option<Seq<char>>;

/// The message a `BuildError` holds. This names what
/// `BuildError::get_message` returns.
pub uninterp spec fn build_error_message(e: BuildError) -> Option<Seq<char>>;

/// Relies on `BuildError::composition_error`, called with no node locations
/// and no omitted-node count: it stores the given code and message as they
/// are, except that with both absent the host substitutes its fixed
/// unknown-error text for the message.
#[verifier::external_body]
fn composition_error(code: Option<String>, message: Option<String>) -> (r: BuildError)
    ensures
        build_error_code(r) == opt_view(code),
        code is Some || message is Some ==> build_error_message(r) == opt_view(message),
        code is None && message is None ==> build_error_message(r) == Some(
            "An unknown error occurred during the build."@,
        ),
{
    BuildError::composition_error(code, message, None, None)
}

/// The code a diagnostic hands to the conversion: its extension code, when
/// it has extensions.
pub open spec fn code_of(d: DiagnosticView) -> Option<Seq<char>> {
    match d.extensions {
        Some(e) => Some(e.code),
        None => None,
    }
}

impl Diagnostic {
    /// Convert the diagnostic into the host's `BuildError`, as a
    /// composition error carrying its code and message. The conversion is
    /// total; the passthrough fields stay behind at this seam.
    pub fn to_build_error(self) -> (r: BuildError)
        ensures
            build_error_code(r) == code_of(self@),
            code_of(self@) is Some || self@.message is Some ==> build_error_message(r)
                == self@.message,
            code_of(self@) is None && self@.message is None ==> build_error_message(r) == Some(
                "An unknown error occurred during the build."@,
            ),
    {
        let code: Option<String> = match self.extensions {
            Some(e) => Some(e.code),
            None => None,
        };
        composition_error(code, self.message)
    }
}

/// Extension fields never cross into the host's error: an unrecognized field
/// added alongside a known code leaves decoding successful, lands verbatim
/// in the passthrough map, and changes nothing of what the conversion hands
/// on — neither the code nor the message.
pub proof fn lemma_passthrough_not_converted(
    f: Map<Seq<char>, serde_json::Value>,
    k: Seq<char>,
    v: serde_json::Value,
)
    requires
        k != "message"@,
        k != "code"@,
        decode_spec(f) is Ok,
        decode_spec(f)->Ok_0.extensions is Some,
    ensures
        decode_spec(f.insert(k, v)) is Ok,
        decode_spec(f.insert(k, v))->Ok_0.message == decode_spec(f)->Ok_0.message,
        code_of(decode_spec(f.insert(k, v))->Ok_0) == code_of(decode_spec(f)->Ok_0),
        decode_spec(f.insert(k, v))->Ok_0.extensions->Some_0.other == decode_spec(
            f,
        )->Ok_0.extensions->Some_0.other.insert(k, v),
{
    let f2 = f.insert(k, v);
    assert(crate::diagnostic::others_of(f2) =~= crate::diagnostic::others_of(f).insert(k, v));
}

} // verus!
