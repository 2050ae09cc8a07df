//! The command bridge: the two operations that the UI layer may ask of the
//! host, and the error they report.
//!
//! Opening a URL is the host's work; the bridge turns its outcome into the
//! result handed back to the UI layer. Hiding the window is a request to the
//! visibility controller of the primary window.

use crate::visibility::{Event, Visibility, VisibilityController, WindowAction};
use vstd::prelude::*;
use vstd::string::StringExecFns;

verus! {

/// Why a bridge operation failed.
#[derive(Clone, Debug, PartialEq, Eq)]
pub enum BridgeError {
    /// The operating system could not open the URL; holds its message.
    OpenFailed(String),
    /// There is no primary window to act on.
    NoPrimaryWindow,
}

impl BridgeError {
    /// The message shown for this error: the operating system's own for a
    /// failed open, a fixed one for a missing window.
    pub open spec fn text(&self) -> Seq<char> {
        match self {
            BridgeError::OpenFailed(message) => message@,
            BridgeError::NoPrimaryWindow => "no primary window"@,
        }
    }

    /// The error as the message string handed to the UI layer.
    pub fn message(&self) -> (r: String)
        ensures
            r@ == self.text(),
    {
        match self {
            BridgeError::OpenFailed(message) => message.clone(),
            BridgeError::NoPrimaryWindow => String::from_str("no primary window"),
        }
    }
}

/// The result of an open-URL request, given how the operating system's
/// attempt ended: success as it is, a failure as `OpenFailed` with the
/// system's message.
pub fn open_url_result(outcome: Result<(), String>) -> (r: Result<(), BridgeError>)
    ensures
        r == match outcome {
            Ok(_) => Ok::<(), BridgeError>(()),
            Err(message) => Err::<(), BridgeError>(BridgeError::OpenFailed(message)),
        },
{
    match outcome {
        Ok(_) => Ok(()),
        Err(message) => Err(BridgeError::OpenFailed(message)),
    }
}

/// Asks the controller of the primary window, if there is one, to hide it.
///
/// Fails exactly when there is no primary window. Otherwise the window is
/// held as hidden afterwards, whatever it was before, and the host is to
/// hide it.
pub fn hide_window(window: &mut Option<VisibilityController>) -> (r: Result<
    WindowAction,
    BridgeError,
>)
    ensures
        match *old(window) {
            None => r == Err::<WindowAction, BridgeError>(BridgeError::NoPrimaryWindow)
                && *final(window) is None,
            Some(before) => r == Ok::<WindowAction, BridgeError>(WindowAction::Hide) && (
            *final(window) matches Some(after) && after@.visibility == Visibility::Hidden
                && after@.shortcut == before@.shortcut),
        },
{
    match window {
        Some(controller) => {
            let action = controller.handle(Event::HideRequested);
            Ok(action)
        },
        None => Err(BridgeError::NoPrimaryWindow),
    }
}

} // verus!
