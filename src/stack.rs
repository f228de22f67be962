use vstd::prelude::*;
use crate::datatypes::Address;
use crate::fault::Fault;

verus! {

/// Most return addresses the stack holds.
pub const STACK_SIZE: usize = 16;

/// The stack `st` after pushing `addrs` onto it, first to last.
pub open spec fn push_all(st: Seq<nat>, addrs: Seq<nat>) -> Seq<nat>
    decreases addrs.len(),
{
    if addrs.len() == 0 {
        st
    } else {
        push_all(st.push(addrs[0]), addrs.drop_first())
    }
}

/// The addresses that popping `st` until it is empty returns, in the order
/// they come out.
pub open spec fn pop_all(st: Seq<nat>) -> Seq<nat>
    decreases st.len(),
{
    if st.len() == 0 {
        Seq::empty()
    } else {
        seq![st.last()].add(pop_all(st.drop_last()))
    }
}

/// Last in, first out: addresses pushed onto an empty stack are all held, in
/// order, and popping them all returns them in reverse order.
pub proof fn lemma_lifo(addrs: Seq<nat>)
    ensures
        push_all(Seq::empty(), addrs) == addrs,
        pop_all(addrs) == addrs.reverse(),
{
    lemma_push_all(Seq::empty(), addrs);
    assert(Seq::<nat>::empty().add(addrs) =~= addrs);
    lemma_pop_all(addrs);
}

proof fn lemma_push_all(st: Seq<nat>, addrs: Seq<nat>)
    ensures
        push_all(st, addrs) == st.add(addrs),
    decreases addrs.len(),
{
    if addrs.len() > 0 {
        lemma_push_all(st.push(addrs[0]), addrs.drop_first());
        assert(st.push(addrs[0]).add(addrs.drop_first()) =~= st.add(addrs));
    } else {
        assert(st.add(addrs) =~= st);
    }
}

proof fn lemma_pop_all(st: Seq<nat>)
    ensures
        pop_all(st) == st.reverse(),
    decreases st.len(),
{
    if st.len() > 0 {
        lemma_pop_all(st.drop_last());
        assert(seq![st.last()].add(st.drop_last().reverse()) =~= st.reverse());
    } else {
        assert(st.reverse() =~= Seq::<nat>::empty());
    }
}

/// The call stack: up to sixteen return addresses.
pub struct Stack {
    slots: Vec<Address>,
    depth: usize,
}

impl Stack {
    #[verifier::type_invariant]
    spec fn well_formed(self) -> bool {
        self.slots@.len() == STACK_SIZE && self.depth <= STACK_SIZE
    }

    /// The return addresses, oldest first.
    pub closed spec fn view(&self) -> Seq<nat> {
        Seq::new(self.depth as nat, |k: int| self.slots@[k]@)
    }

    /// An empty stack.
    pub fn new() -> (r: Stack)
        ensures
            r@ == Seq::<nat>::empty(),
    {
        let mut slots: Vec<Address> = Vec::new();
        let mut k: usize = 0;
        while k < STACK_SIZE
            invariant
                k <= STACK_SIZE,
                slots@.len() == k,
            decreases STACK_SIZE - k,
        {
            slots.push(Address::new(0));
            k = k + 1;
        }
        let r = Stack { slots, depth: 0 };
        assert(r@ =~= Seq::<nat>::empty());
        r
    }

    /// Number of return addresses held.
    pub fn len(&self) -> (r: usize)
        ensures
            r == self@.len(),
            r <= STACK_SIZE,
    {
        proof {
            use_type_invariant(self);
        }
        self.depth
    }

    /// Pushes a return address; fails, leaving the stack as it was, when all
    /// sixteen entries are in use.
    pub fn push(&mut self, address: Address) -> (r: Result<(), Fault>)
        ensures
            old(self)@.len() < STACK_SIZE ==> r == Ok::<(), Fault>(())
                && final(self)@ == old(self)@.push(address@),
            old(self)@.len() >= STACK_SIZE ==> r == Err::<(), Fault>(Fault::StackOverflow)
                && final(self)@ == old(self)@,
            final(self)@.len() <= STACK_SIZE,
    {
        proof {
            use_type_invariant(&*self);
        }
        if self.depth >= STACK_SIZE {
            return Err(Fault::StackOverflow);
        }
        let depth = self.depth;
        self.slots[depth] = address;
        self.depth = depth + 1;
        assert(self@ =~= old(self)@.push(address@));
        Ok(())
    }

    /// Pops the most recent return address, or `None` when the stack is empty.
    pub fn pop(&mut self) -> (r: Option<Address>)
        ensures
            old(self)@.len() == 0 ==> r == None::<Address> && final(self)@ == old(self)@,
            old(self)@.len() > 0 ==> (r matches Some(a) && a@ == old(self)@.last()
                && final(self)@ == old(self)@.drop_last()),
            final(self)@.len() <= STACK_SIZE,
    {
        proof {
            use_type_invariant(&*self);
        }
        if self.depth == 0 {
            return None;
        }
        self.depth = self.depth - 1;
        let address = self.slots[self.depth];
        assert(self@ =~= old(self)@.drop_last());
        Some(address)
    }
}

} // verus!
