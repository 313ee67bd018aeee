//! The call stack: up to sixteen return addresses.

use vstd::prelude::*;
use crate::error::Chip8Error;

verus! {

/// A stack of at most sixteen return addresses. Slots that hold no live
/// address are kept at zero, so that equal stacks compare equal.
#[derive(Debug, PartialEq, Eq)]
pub struct CallStack {
    slots: [u16; 16],
    top: u8,
}

impl View for CallStack {
    type V = Seq<u16>;

    /// The live return addresses, oldest first.
    closed spec fn view(&self) -> Seq<u16> {
        self.slots@.take(
            if self.top <= 16 {
                self.top as int
            } else {
                16
            },
        )
    }
}

/// The contents of the sixteen slots of a stack that holds `live`: the live
/// addresses first, then zeros.
pub open spec fn padded_slots(live: Seq<u16>) -> Seq<u16> {
    Seq::new(16, |i: int| if i < live.len() { live[i] } else { 0u16 })
}

impl CallStack {
    #[verifier::type_invariant]
    spec fn tidy(self) -> bool {
        &&& self.top <= 16
        &&& forall|i: int| self.top <= i < 16 ==> self.slots@[i] == 0
    }

    /// No stack holds more than sixteen addresses.
    pub proof fn lemma_bounded(self)
        ensures
            self@.len() <= 16,
    {
    }

    /// An empty stack.
    pub fn new() -> (stack: Self)
        ensures
            stack@ == Seq::<u16>::empty(),
    {
        let stack = CallStack { slots: [0u16;16], top: 0 };
        assert(stack@ =~= Seq::<u16>::empty());
        stack
    }

    /// Number of live return addresses.
    pub fn len(&self) -> (len: u8)
        ensures
            len == self@.len(),
            len <= 16,
    {
        proof {
            use_type_invariant(self);
        }
        self.top
    }

    /// The sixteen slots: the live addresses, oldest first, then zeros.
    pub fn slots(&self) -> (slots: &[u16; 16])
        ensures
            slots@ == padded_slots(self@),
    {
        proof {
            use_type_invariant(self);
            assert(self.slots@ =~= padded_slots(self@));
        }
        &self.slots
    }

    /// Pushes a return address, unless the stack is full.
    pub fn push(&mut self, val: u16) -> (result: Result<(), Chip8Error>)
        ensures
            result == (if old(self)@.len() < 16 {
                Ok::<(), Chip8Error>(())
            } else {
                Err::<(), Chip8Error>(Chip8Error::StackOverflow)
            }),
            final(self)@ == (if old(self)@.len() < 16 {
                old(self)@.push(val)
            } else {
                old(self)@
            }),
    {
        proof {
            use_type_invariant(&*self);
        }
        if self.top >= 16 {
            return Err(Chip8Error::StackOverflow);
        }
        let slot = self.top as usize;
        self.top += 1;
        self.slots[slot] = val;
        assert(self@ =~= old(self)@.push(val));
        Ok(())
    }

    /// Pops the most recent return address, unless the stack is empty.
    pub fn pop(&mut self) -> (result: Result<u16, Chip8Error>)
        ensures
            result == (if old(self)@.len() > 0 {
                Ok::<u16, Chip8Error>(old(self)@.last())
            } else {
                Err::<u16, Chip8Error>(Chip8Error::StackUnderflow)
            }),
            final(self)@ == (if old(self)@.len() > 0 {
                old(self)@.drop_last()
            } else {
                old(self)@
            }),
    {
        proof {
            use_type_invariant(&*self);
        }
        if self.top == 0 {
            return Err(Chip8Error::StackUnderflow);
        }
        let slot = (self.top - 1) as usize;
        let value = self.slots[slot];
        self.slots[slot] = 0;
        self.top -= 1;
        assert(self@ =~= old(self)@.drop_last());
        Ok(value)
    }
}

} // verus!
