//! The minimal stack: `i32` elements, `push` and `pop` only.

use crate::model::{pushed, rest, top};
use vstd::prelude::*;

verus! {

/// What a slot of the chain holds: nothing, or the node that owns the rest.
enum Link {
    Empty,
    More(Box<Node>),
}

/// One element and ownership of everything pushed before it.
struct Node {
    elem: i32,
    next: Link,
}

impl Link {
    /// The elements reachable from this link, nearest first.
    spec fn elems(self) -> Seq<i32>
        decreases self,
    {
        match self {
            Link::Empty => Seq::empty(),
            Link::More(node) => seq![node.elem] + node.next.elems(),
        }
    }
}

/// A stack of `i32`. Its view is the sequence of its elements, most recently
/// pushed first.
pub struct List {
    head: Link,
}

impl View for List {
    type V = Seq<i32>;

    closed spec fn view(&self) -> Seq<i32> {
        self.head.elems()
    }
}

impl List {
    /// An empty stack.
    pub fn new() -> (list: Self)
        ensures
            list@ == Seq::<i32>::empty(),
    {
        List { head: Link::Empty }
    }

    /// Puts `elem` on top. The chain so far is moved out of the head slot
    /// into the new node, which then becomes the head.
    pub fn push(&mut self, elem: i32)
        ensures
            final(self)@ == pushed(old(self)@, elem),
    {
        let mut tail = Link::Empty;
        core::mem::swap(&mut self.head, &mut tail);
        let new_node = Box::new(Node { elem, next: tail });
        self.head = Link::More(new_node);
    }

    /// Takes the top element off, if there is one. An empty stack hands out
    /// nothing and stays as it is.
    pub fn pop(&mut self) -> (popped: Option<i32>)
        ensures
            popped == top(old(self)@),
            final(self)@ == rest(old(self)@),
    {
        let mut taken = Link::Empty;
        core::mem::swap(&mut self.head, &mut taken);
        match taken {
            Link::Empty => None,
            Link::More(node) => {
                let node = *node;
                self.head = node.next;
                Some(node.elem)
            },
        }
    }
}

impl Drop for List {
    /// Takes the chain apart node by node. Each node gives up its tail before
    /// it is released, so releasing it releases one node and no more, however
    /// long the chain is.
    fn drop(&mut self)
        ensures
            final(self)@ == Seq::<i32>::empty(),
        opens_invariants none
        no_unwind
    {
        let mut cur_link = Link::Empty;
        core::mem::swap(&mut self.head, &mut cur_link);
        loop
            invariant
                self.head is Empty,
            decreases cur_link.elems().len(),
        {
            match cur_link {
                Link::Empty => {
                    break;
                },
                Link::More(mut boxed_node) => {
                    let mut tail = Link::Empty;
                    core::mem::swap(&mut boxed_node.next, &mut tail);
                    cur_link = tail;
                },
            }
        }
    }
}

} // verus!
