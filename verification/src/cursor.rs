//! The cursor store: the height up to which the source chain has been scanned.
use crate::height::BlockHeight;
use vstd::prelude::*;

verus! {

/// An attempt to move a [`Cursor`] below the height it already holds.
#[derive(Clone, Copy, Debug, PartialEq, Eq, Structural)]
pub struct OutOfOrderCursor {
    /// The height the cursor held, and still holds.
    pub current: BlockHeight,
    /// The lower height that was asked for.
    pub attempted: BlockHeight,
}

/// The first source-chain height that has not been scanned for bridge events
/// yet. Every event below it has been relayed.
///
/// The stored height is private: it changes through [`Cursor::advance`] alone,
/// which never lowers it.
#[derive(Debug)]
pub struct Cursor {
    height: BlockHeight,
}

impl View for Cursor {
    type V = nat;

    /// The stored height, as a number.
    closed spec fn view(&self) -> nat {
        self.height@
    }
}

impl Cursor {
    /// A cursor that starts at `start`.
    pub fn new(start: BlockHeight) -> (c: Cursor)
        ensures
            c@ == start@,
    {
        Cursor { height: start }
    }

    /// The stored height.
    pub fn current(&self) -> (h: BlockHeight)
        ensures
            h@ == self@,
    {
        self.height
    }

    /// Moves the cursor to `to`.
    ///
    /// A target at or above the stored height is taken over, so advancing to
    /// the stored height itself succeeds and changes nothing. A target below it
    /// is refused and the cursor keeps its height.
    pub fn advance(&mut self, to: BlockHeight) -> (r: Result<(), OutOfOrderCursor>)
        ensures
            to@ >= old(self)@ ==> r is Ok && final(self)@ == to@,
            to@ < old(self)@ ==> final(self)@ == old(self)@ && r is Err
                && r->Err_0.attempted == to && r->Err_0.current@ == old(self)@,
    {
        if to.is_below(&self.height) {
            Err(OutOfOrderCursor { current: self.height, attempted: to })
        } else {
            self.height = to;
            Ok(())
        }
    }
}

} // verus!
