//! Identifiers.

use vstd::prelude::*;

verus! {

/// Unique ID of a workspace.
#[derive(Clone, Copy, Debug, PartialEq, Eq, Hash, Structural)]
pub struct WorkspaceId(u64);

/// Hands out identifiers one after another.
#[derive(Debug)]
pub struct IdCounter {
    next: u64,
}

/// Identifies an output for as long as it is connected.
#[derive(Clone, Copy, Debug, PartialEq, Eq, Hash, Structural)]
pub struct OutputHandle(pub u64);

/// Identifies a window.
#[derive(Clone, Copy, Debug, PartialEq, Eq, Hash, Structural)]
pub struct WindowId(pub u64);

/// Identifies a set of layout options as the shell received it.
#[derive(Clone, Copy, Debug, PartialEq, Eq, Hash, Structural)]
pub struct OptionsHandle(pub u64);

/// Identifies a clock that drives animations.
#[derive(Clone, Copy, Debug, PartialEq, Eq, Hash, Structural)]
pub struct ClockHandle(pub u64);

/// The identifier that comes `n` after `first`; past the largest one the count starts over at
/// zero.
pub open spec fn nth_id(first: u64, n: nat) -> u64 {
    ((first + n) % 0x1_0000_0000_0000_0000) as u64
}

impl IdCounter {
    /// The identifier that is handed out next.
    pub closed spec fn view(&self) -> u64 {
        self.next
    }

    /// A counter that hands out `first` first.
    pub fn starting_at(first: u64) -> (r: Self)
        ensures
            r@ == first,
    {
        IdCounter { next: first }
    }

    pub fn next(&mut self) -> (r: u64)
        ensures
            r == old(self)@,
            final(self)@ == nth_id(old(self)@, 1),
    {
        let id: u64 = self.next;
        self.next = id.wrapping_add(1);
        id
    }
}

impl WorkspaceId {
    pub closed spec fn view(&self) -> u64 {
        self.0
    }

    /// A fresh ID from the counter.
    pub fn next(counter: &mut IdCounter) -> (r: WorkspaceId)
        ensures
            r@ == old(counter)@,
            final(counter)@ == nth_id(old(counter)@, 1),
    {
        WorkspaceId(counter.next())
    }

    pub fn get(self) -> (r: u64)
        ensures
            r == self@,
            forall|other: WorkspaceId| #[trigger] other@ == r ==> other == self,
    {
        self.0
    }

    pub fn specific(id: u64) -> (r: Self)
        ensures
            r@ == id,
            forall|other: WorkspaceId| #[trigger] other@ == id ==> other == r,
    {
        Self(id)
    }
}

/// An ID is its number: IDs are equal exactly where their numbers are.
pub proof fn lemma_id_is_its_number(a: WorkspaceId, b: WorkspaceId)
    ensures
        a == b <==> a@ == b@,
{
}

} // verus!
