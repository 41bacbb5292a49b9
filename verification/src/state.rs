//! The externally held side of the runtime: the cloneable handle that
//! callers prompt through, and the application state slot that holds the
//! current handle, if any. The channels a real handle sends over belong to
//! the surrounding program; what their outcomes mean is stated here.

use vstd::prelude::*;
use vstd::string::StringExecFns;
use crate::errors::AcpError;
use crate::session::SessionId;
use crate::worker::PromptResult;

verus! {

/// The caller-facing accessor: carries the negotiated session identifier.
/// The surrounding program pairs it with a command-queue sender; cloning
/// duplicates only that sender and this identifier.
#[derive(Debug)]
pub struct AcpHandle {
    pub session_id: SessionId,
}

impl View for AcpHandle {
    type V = Seq<char>;

    open spec fn view(&self) -> Seq<char> {
        self.session_id@
    }
}

impl AcpHandle {
    pub fn new(session_id: SessionId) -> (h: AcpHandle)
        ensures
            h@ == session_id@,
    {
        AcpHandle { session_id }
    }

    /// The session this runtime negotiated at startup.
    pub fn session_id(&self) -> (s: SessionId)
        ensures
            s@ == self@,
    {
        self.session_id.duplicate()
    }
}

/// How one prompt exchange over the command queue can end, as the
/// surrounding program observes it: the send failed because the worker is
/// gone, the reply slot was dropped unfulfilled, or the worker answered.
pub enum PromptDelivery {
    SendFailed,
    ReplyDropped,
    Replied(Result<PromptResult, AcpError>),
}

/// What a `prompt` call surfaces to the caller for each way the exchange
/// can end. Failure modes read as plain text; a protocol error reads as
/// its message.
pub fn prompt_reply(delivery: PromptDelivery) -> (r: Result<PromptResult, String>)
    ensures
        match delivery {
            PromptDelivery::SendFailed => r matches Err(m) && m@ == "ACP runtime not available"@,
            PromptDelivery::ReplyDropped => r matches Err(m) && m@ == "ACP runtime shut down"@,
            PromptDelivery::Replied(inner) => match inner {
                Ok(p) => r == Ok::<PromptResult, String>(p),
                Err(e) => r matches Err(m) && m@ == e.message@,
            },
        },
{
    match delivery {
        PromptDelivery::SendFailed => Err(String::from_str("ACP runtime not available")),
        PromptDelivery::ReplyDropped => Err(String::from_str("ACP runtime shut down")),
        PromptDelivery::Replied(inner) => match inner {
            Ok(p) => Ok(p),
            Err(e) => Err(e.describe()),
        },
    }
}

/// The mutex-guarded optional slot that the surrounding application keeps
/// the current handle in; only one runtime is active at a time.
pub struct AppState {
    pub handle: Option<AcpHandle>,
}

impl Default for AppState {
    /// Before initialization the slot is empty.
    fn default() -> (s: AppState)
        ensures
            s.handle is None,
    {
        AppState { handle: None }
    }
}

impl AppState {
    /// Install the handle of a freshly started runtime, replacing any
    /// previous one.
    pub fn set_handle(&mut self, handle: AcpHandle)
        ensures
            final(self).handle == Some(handle),
    {
        self.handle = Some(handle);
    }

    /// The current handle, or the explicit "not initialized" error when no
    /// runtime has been started.
    pub fn handle(&self) -> (r: Result<AcpHandle, String>)
        ensures
            match self.handle {
                Some(h) => r matches Ok(g) && g@ == h@,
                None => r matches Err(m) && m@ == "ACP connection not initialized"@,
            },
    {
        match &self.handle {
            Some(h) => Ok(AcpHandle { session_id: h.session_id.duplicate() }),
            None => Err(String::from_str("ACP connection not initialized")),
        }
    }

    /// The current session identifier, or the same "not initialized"
    /// error.
    pub fn session_id(&self) -> (r: Result<SessionId, String>)
        ensures
            match self.handle {
                Some(h) => r matches Ok(s) && s@ == h@,
                None => r matches Err(m) && m@ == "ACP connection not initialized"@,
            },
    {
        match &self.handle {
            Some(h) => Ok(h.session_id.duplicate()),
            None => Err(String::from_str("ACP connection not initialized")),
        }
    }
}

} // verus!
