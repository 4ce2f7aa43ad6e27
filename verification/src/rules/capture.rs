//! Per-ply rules about captures.

use crate::ply::{Ply, Role};
use crate::rules::MoveRule;
use vstd::prelude::*;

verus! {

/// Captures must be made with the given piece role: a ply passes when it is
/// not a capture, or when the moved piece has that role.
pub struct MustCaptureWith {
    pub role: Role,
}

impl MoveRule for MustCaptureWith {
    open spec fn ply_ok(&self, p: Ply) -> bool {
        p.is_capture() ==> p.role == self.role
    }

    fn is_move_match(&self, p: &Ply) -> (r: bool) {
        !p.is_capture() || p.role == self.role
    }
}

/// Pieces of the given role must never be captured: a ply passes when it is
/// not a capture, or when the captured piece has another role.
pub struct MustNotCapture {
    pub role: Role,
}

impl MoveRule for MustNotCapture {
    open spec fn ply_ok(&self, p: Ply) -> bool {
        p.is_capture() ==> p.captured != Some(self.role)
    }

    fn is_move_match(&self, p: &Ply) -> (r: bool) {
        match p.captured {
            Some(c) => c != self.role,
            None => true,
        }
    }
}

/// Captures must be made with the given piece role unless the capturing side
/// stood in check before the move: a ply passes when it is not a capture,
/// when its side was in check, or when the moved piece has that role.
pub struct MustCaptureWithUnlessInCheck {
    pub role: Role,
}

impl MoveRule for MustCaptureWithUnlessInCheck {
    open spec fn ply_ok(&self, p: Ply) -> bool {
        p.is_capture() && !p.in_check ==> p.role == self.role
    }

    fn is_move_match(&self, p: &Ply) -> (r: bool) {
        !p.is_capture() || p.in_check || p.role == self.role
    }
}

} // verus!
