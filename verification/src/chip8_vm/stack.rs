use vstd::prelude::*;

verus! {

/// Number of return-address slots.
pub const STACK_SIZE: usize = 16;

/// The mathematical value of a call stack: its slots and its pointer.
pub struct StackView {
    pub slots: Seq<u16>,
    pub sp: u8,
}

impl StackView {
    /// All slots zero, pointer at the first slot.
    pub open spec fn empty() -> StackView {
        StackView { slots: Seq::new(STACK_SIZE as nat, |i: int| 0u16), sp: 0 }
    }

    /// The pointer names a slot.
    pub open spec fn in_range(self) -> bool {
        (self.sp as int) < self.slots.len()
    }

    /// The slot under the pointer.
    pub open spec fn top(self) -> u16
        recommends
            self.in_range(),
    {
        self.slots[self.sp as int]
    }

    /// The stack after a return: the pointer steps down unless it is already
    /// at the first slot; the slots keep what they hold.
    pub open spec fn popped(self) -> StackView {
        StackView {
            slots: self.slots,
            sp: if self.sp > 0 {
                (self.sp - 1) as u8
            } else {
                0
            },
        }
    }

    /// The stack with `value` written under the pointer.
    pub open spec fn with_top(self, value: u16) -> StackView
        recommends
            self.in_range(),
    {
        StackView { slots: self.slots.update(self.sp as int, value), sp: self.sp }
    }

    /// The stack with the pointer one slot further.
    pub open spec fn advanced(self) -> StackView
        recommends
            self.sp < u8::MAX,
    {
        StackView { slots: self.slots, sp: (self.sp + 1) as u8 }
    }

    /// The stack after a subroutine call that leaves `return_address`: the
    /// pointer moves on only where the slot under it is already in use, and
    /// the address goes into the slot under the resulting pointer.
    pub open spec fn called(self, return_address: u16) -> StackView {
        if self.top() != 0 {
            self.advanced().with_top(return_address)
        } else {
            self.with_top(return_address)
        }
    }

    /// A call can be made: the slot it reads and the slot it writes exist.
    pub open spec fn can_call(self) -> bool {
        self.in_range() && (self.top() != 0 ==> self.advanced().in_range())
    }
}

/// Fixed return-address stack of sixteen 16-bit slots with a pointer.
///
/// The discipline is deliberately lopsided: a return reads the slot under the
/// pointer before it moves the pointer, and the pointer never goes below the
/// first slot.
pub struct Stack {
    stack: [u16; STACK_SIZE],
    sp: u8,
}

impl View for Stack {
    type V = StackView;

    closed spec fn view(&self) -> StackView {
        StackView { slots: self.stack@, sp: self.sp }
    }
}

impl Stack {
    /// Every stack has exactly sixteen slots.
    pub proof fn lemma_slot_count(&self)
        ensures
            self@.slots.len() == STACK_SIZE,
    {
    }

    pub fn new() -> (stack: Self)
        ensures
            stack@ == StackView::empty(),
    {
        let stack = Stack { stack: [0; STACK_SIZE], sp: 0 };
        assert(stack@.slots =~= StackView::empty().slots);
        stack
    }

    /// Reads the slot under the pointer, then moves the pointer down one slot
    /// unless it is at the first slot already. The value read is returned
    /// either way.
    pub fn pop(&mut self) -> (value: u16)
        requires
            old(self)@.in_range(),
        ensures
            value == old(self)@.top(),
            final(self)@ == old(self)@.popped(),
    {
        let index: usize = self.sp as usize;
        if self.sp > 0 {
            self.sp -= 1;
        }
        self.stack[index]
    }

    /// Back to the state of a new stack: every slot zero, pointer at the
    /// first slot.
    pub fn reset(&mut self)
        ensures
            final(self)@ == StackView::empty(),
    {
        self.stack = [0; STACK_SIZE];
        self.sp = 0;
        assert(self@.slots =~= StackView::empty().slots);
    }

    pub fn get(&self) -> (value: u16)
        requires
            self@.in_range(),
        ensures
            value == self@.top(),
    {
        self.stack[self.sp as usize]
    }

    pub fn set(&mut self, value: u16)
        requires
            old(self)@.in_range(),
        ensures
            final(self)@ == old(self)@.with_top(value),
    {
        self.stack[self.sp as usize] = value;
    }

    /// Whether the pointer names a slot, so that the slot can be read, written
    /// or returned from.
    pub fn is_in_range(&self) -> (in_range: bool)
        ensures
            in_range == self@.in_range(),
    {
        (self.sp as usize) < STACK_SIZE
    }

    /// Whether a call can be made: the slot under the pointer exists and,
    /// where it is in use, so does the one behind it.
    pub fn can_call(&self) -> (room: bool)
        ensures
            room == self@.can_call(),
    {
        (self.sp as usize) < STACK_SIZE && (self.stack[self.sp as usize] == 0 || (self.sp as usize)
            + 1 < STACK_SIZE)
    }

    pub fn increment_sp(&mut self)
        requires
            old(self)@.sp < u8::MAX,
        ensures
            final(self)@ == old(self)@.advanced(),
    {
        self.sp += 1;
    }
}

} // verus!
