//! The terminal session around a chat: what is done to the terminal before
//! the chat is drawn, and what undoes it afterwards.

use vstd::prelude::*;

verus! {

/// One change of the terminal's mode.
#[derive(Clone, Copy, Debug, PartialEq, Eq)]
pub enum SessionOp {
    /// Deliver key presses one by one, unbuffered and without echo.
    EnableRawMode,
    /// Switch to the alternate screen, keeping what the shell showed.
    EnterAlternateScreen,
    /// Switch back from the alternate screen.
    LeaveAlternateScreen,
    /// Go back to line-buffered input.
    DisableRawMode,
}

impl SessionOp {
    /// The operation that undoes this one.
    pub open spec fn inverse(self) -> SessionOp {
        match self {
            SessionOp::EnableRawMode => SessionOp::DisableRawMode,
            SessionOp::EnterAlternateScreen => SessionOp::LeaveAlternateScreen,
            SessionOp::LeaveAlternateScreen => SessionOp::EnterAlternateScreen,
            SessionOp::DisableRawMode => SessionOp::EnableRawMode,
        }
    }
}

/// What starts a session: raw mode first, then the alternate screen.
pub open spec fn start_ops() -> Seq<SessionOp> {
    seq![SessionOp::EnableRawMode, SessionOp::EnterAlternateScreen]
}

/// What stops a session: the alternate screen is left first, then raw mode.
pub open spec fn stop_ops() -> Seq<SessionOp> {
    seq![SessionOp::LeaveAlternateScreen, SessionOp::DisableRawMode]
}

/// The operations that start a session, in the order in which they are done.
pub fn start() -> (ops: Vec<SessionOp>)
    ensures
        ops@ == start_ops(),
{
    let mut ops: Vec<SessionOp> = Vec::new();
    ops.push(SessionOp::EnableRawMode);
    ops.push(SessionOp::EnterAlternateScreen);
    assert(ops@ =~= start_ops());
    ops
}

/// The operations that stop a session, in the order in which they are done.
pub fn stop() -> (ops: Vec<SessionOp>)
    ensures
        ops@ == stop_ops(),
{
    let mut ops: Vec<SessionOp> = Vec::new();
    ops.push(SessionOp::LeaveAlternateScreen);
    ops.push(SessionOp::DisableRawMode);
    assert(ops@ =~= stop_ops());
    ops
}

/// Stopping undoes starting, last change first: the operations that stop a
/// session are the inverses of those that start it, in the opposite order.
pub proof fn lemma_stop_reverses_start()
    ensures
        stop_ops().len() == start_ops().len(),
        forall|i: int|
            0 <= i < stop_ops().len() ==> #[trigger] stop_ops()[i] == start_ops()[
                start_ops().len() - 1 - i
            ].inverse(),
{
}

} // verus!
