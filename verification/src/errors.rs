//! Protocol-level errors the runtime produces: a JSON-RPC error code and a
//! short message, mirrored onto the wire by the surrounding program.

use vstd::prelude::*;
use vstd::string::StringExecFns;

verus! {

/// Code for a callback the host does not support.
pub const NOT_SUPPORTED_CODE: i32 = -32601;

/// Code for an internal failure (file I/O, cancellation).
pub const INTERNAL_ERROR_CODE: i32 = -32603;

/// An error answered to the agent or surfaced to a caller.
#[derive(Debug)]
pub struct AcpError {
    pub code: i32,
    pub message: String,
}

impl AcpError {
    /// The fixed "not supported" answer with the given message.
    pub open spec fn is_not_supported(self, text: Seq<char>) -> bool {
        self.code == NOT_SUPPORTED_CODE && self.message@ == text
    }

    /// An internal-error answer with the given message.
    pub open spec fn is_internal(self, text: Seq<char>) -> bool {
        self.code == INTERNAL_ERROR_CODE && self.message@ == text
    }

    /// Error for a capability the host refuses unconditionally.
    pub fn not_supported(text: &str) -> (e: AcpError)
        ensures
            e.is_not_supported(text@),
    {
        AcpError { code: NOT_SUPPORTED_CODE, message: String::from_str(text) }
    }

    /// Internal error with a fixed message.
    pub fn internal(text: &str) -> (e: AcpError)
        ensures
            e.is_internal(text@),
    {
        AcpError { code: INTERNAL_ERROR_CODE, message: String::from_str(text) }
    }

    /// Internal error whose message is a fixed prefix followed by the detail
    /// reported by the failing operation.
    pub fn internal_with_detail(prefix: &str, detail: &str) -> (e: AcpError)
        ensures
            e.is_internal(prefix@ + detail@),
    {
        let mut message = String::from_str(prefix);
        message.append(detail);
        AcpError { code: INTERNAL_ERROR_CODE, message }
    }

    /// How the error reads when shown to a caller: its message. The
    /// runtime's own constructors always set one, and the surrounding
    /// program folds an agent-supplied error's bare code (when it has no
    /// message) and extra payload into the message before handing it in,
    /// so the message is the complete rendering.
    pub fn describe(&self) -> (m: String)
        ensures
            m@ == self.message@,
    {
        self.message.clone()
    }
}

} // verus!
