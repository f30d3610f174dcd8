use vstd::prelude::*;
use vstd::string::StringExecFns;

verus! {

/// What a non-blocking look at the file dialog's channel found.
pub enum PollEvent<T> {
    /// The dialog task sent its outcome.
    Received(T),
    /// The dialog is still open.
    Empty,
    /// The dialog task ended without sending anything.
    Disconnected,
}

/// The message reported when the dialog task goes away without an answer.
pub open spec fn disconnected_message() -> Seq<char> {
    "SVG file dialog task disconnected before completing"@
}

/// Whether a dialog is still pending after a poll that found `event`.
pub open spec fn pending_after<T>(event: Option<PollEvent<T>>) -> bool {
    event matches Some(PollEvent::Empty)
}

/// Whether a poll that found `event` hands an outcome to the caller.
pub open spec fn reports_outcome<T>(event: Option<PollEvent<T>>) -> bool {
    event matches Some(PollEvent::Received(_)) || event matches Some(PollEvent::Disconnected)
}

/// Decides what one poll of the pending file dialog yields.
///
/// `event` is `None` when no dialog is pending. The first component of the
/// result says whether a dialog is still pending afterwards; the second is
/// the outcome to act on, if there is one now: what the dialog sent, or an
/// error when it went away without sending.
pub fn poll_dialog<T>(event: Option<PollEvent<Result<T, String>>>) -> (r: (
    bool,
    Option<Result<T, String>>,
))
    ensures
        r.0 == pending_after(event),
        r.1 is Some == reports_outcome(event),
        event matches Some(PollEvent::Received(outcome)) ==> r.1 == Some(outcome),
        event matches Some(PollEvent::Disconnected) ==> (r.1 matches Some(Err(msg)) && msg@
            == disconnected_message()),
{
    match event {
        None => (false, None),
        Some(PollEvent::Received(outcome)) => (false, Some(outcome)),
        Some(PollEvent::Empty) => (true, None),
        Some(PollEvent::Disconnected) => {
            let msg = String::from_str("SVG file dialog task disconnected before completing");
            (false, Some(Err(msg)))
        },
    }
}

/// A poll hands over an outcome exactly when a pending dialog stops being
/// pending, so each dialog yields one outcome and a poll with nothing pending
/// yields none.
pub proof fn outcome_iff_dialog_ends<T>(event: Option<PollEvent<T>>)
    ensures
        reports_outcome(event) <==> (event is Some && !pending_after(event)),
        !reports_outcome::<T>(None),
        !pending_after::<T>(None),
{
}

} // verus!
