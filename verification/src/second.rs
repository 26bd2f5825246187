//! The general stack: any element type, a look at the top, and three ways to
//! walk the chain: draining it, reading it, and writing to it in place.

use crate::model::{pushed, rest, top};
use vstd::prelude::*;

verus! {

type Link<T> = Option<Box<Node<T>>>;

/// One element and ownership of everything pushed before it.
///
/// The type is public only so that the contracts of [`IterMut`] can speak of
/// the chain a cursor still holds. It has no public field and no constructor:
/// nodes are made by [`List::push`] alone.
pub struct Node<T> {
    elem: T,
    next: Link<T>,
}

impl<T> Node<T> {
    /// The elements from this node to the end of the chain, nearest first.
    pub closed spec fn elems(self) -> Seq<T>
        decreases self,
    {
        seq![self.elem] + Self::link_elems(self.next)
    }

    /// The elements reachable from a link, nearest first.
    spec fn link_elems(link: Link<T>) -> Seq<T>
        decreases link,
    {
        match link {
            None => Seq::empty(),
            Some(node) => node.elems(),
        }
    }
}

/// A stack. Its view is the sequence of its elements, most recently pushed
/// first.
pub struct List<T> {
    head: Link<T>,
}

impl<T> View for List<T> {
    type V = Seq<T>;

    closed spec fn view(&self) -> Seq<T> {
        Node::link_elems(self.head)
    }
}

impl<T> List<T> {
    /// An empty stack.
    pub fn new() -> (list: Self)
        ensures
            list@ == Seq::<T>::empty(),
    {
        List { head: None }
    }

    /// A cursor that hands out each element for writing, top first. While it
    /// lives the stack cannot be reached in any other way. When the borrow
    /// ends the stack holds, place by place, what was last written.
    pub fn iter_mut(&mut self) -> (it: IterMut<'_, T>)
        ensures
            it@ == old(self)@,
            it.node() is None <==> it@.len() == 0,
            final(self)@ == (match it.node() {
                None => Seq::empty(),
                Some(node) => final(node).elems(),
            }),
    {
        IterMut {
            next: match &mut self.head {
                None => None,
                Some(boxed) => Some(&mut **boxed),
            },
        }
    }

    /// Gives the stack up for a cursor that pops it empty.
    pub fn into_iter(self) -> (it: IntoIterator<T>)
        ensures
            it@ == self@,
    {
        IntoIterator(self)
    }

    /// A cursor that reads each element, top first. The stack is not changed.
    pub fn iter<'a>(&'a self) -> (it: Iter<'a, T>)
        ensures
            it@ == self@,
    {
        Iter {
            next: match &self.head {
                None => None,
                Some(boxed) => Some(&**boxed),
            },
        }
    }

    /// The top element, if there is one, for reading.
    pub fn peek(&self) -> (seen: Option<&T>)
        ensures
            seen is Some <==> self@.len() > 0,
            seen is Some ==> top(self@) == Some(*seen.unwrap()),
    {
        match &self.head {
            None => None,
            Some(node) => Some(&node.elem),
        }
    }

    /// The top element, if there is one, for writing. What is written through
    /// the reference is the top element once the borrow ends; nothing below
    /// it changes.
    pub fn peek_mut(&mut self) -> (seen: Option<&mut T>)
        ensures
            seen is Some <==> old(self)@.len() > 0,
            seen is Some ==> top(old(self)@) == Some(*seen.unwrap()),
            seen is Some ==> final(self)@ == old(self)@.update(0, *final(seen.unwrap())),
            seen is None ==> final(self)@ == old(self)@,
    {
        match &mut self.head {
            None => None,
            Some(node) => Some(&mut node.elem),
        }
    }

    /// Puts `elem` on top. The chain so far is moved out of the head slot
    /// into the new node, which then becomes the head.
    pub fn push(&mut self, elem: T)
        ensures
            final(self)@ == pushed(old(self)@, elem),
    {
        let tail = self.head.take();
        let new_node = Box::new(Node { elem, next: tail });
        self.head = Some(new_node);
    }

    /// Takes the top element off, if there is one. An empty stack hands out
    /// nothing and stays as it is.
    pub fn pop(&mut self) -> (popped: Option<T>)
        ensures
            popped == top(old(self)@),
            final(self)@ == rest(old(self)@),
    {
        match self.head.take() {
            None => None,
            Some(node) => {
                let node = *node;
                self.head = node.next;
                Some(node.elem)
            },
        }
    }
}

impl<T> Drop for List<T> {
    /// Takes the chain apart node by node. Each node gives up its tail before
    /// it is released, so releasing it releases one node and no more, however
    /// long the chain is.
    fn drop(&mut self)
        ensures
            final(self)@ == Seq::<T>::empty(),
        opens_invariants none
        no_unwind
    {
        let mut cur_link: Link<T> = None;
        core::mem::swap(&mut self.head, &mut cur_link);
        loop
            invariant
                self.head is None,
            decreases Node::link_elems(cur_link).len(),
        {
            match cur_link {
                None => {
                    break;
                },
                Some(mut boxed_node) => {
                    let mut tail: Link<T> = None;
                    core::mem::swap(&mut boxed_node.next, &mut tail);
                    cur_link = tail;
                },
            }
        }
    }
}

/// A cursor that owns the stack and pops it. Its view is what is still to be
/// handed out, next first.
pub struct IntoIterator<T>(List<T>);

impl<T> View for IntoIterator<T> {
    type V = Seq<T>;

    closed spec fn view(&self) -> Seq<T> {
        self.0@
    }
}

impl<T> IntoIterator<T> {
    /// Hands out the next element by value. Once the stack is empty every
    /// call hands out nothing.
    pub fn next(&mut self) -> (item: Option<T>)
        ensures
            item == top(old(self)@),
            final(self)@ == rest(old(self)@),
    {
        self.0.pop()
    }
}

/// A cursor that reads a stack in place. Its view is what is still to be
/// handed out, next first.
pub struct Iter<'a, T> {
    next: Option<&'a Node<T>>,
}

impl<'a, T> View for Iter<'a, T> {
    type V = Seq<T>;

    closed spec fn view(&self) -> Seq<T> {
        match self.next {
            None => Seq::empty(),
            Some(node) => node.elems(),
        }
    }
}

impl<'a, T> Iter<'a, T> {
    /// Hands out a shared reference to the next element and steps to the
    /// node after it. At the end of the chain every call hands out nothing.
    pub fn next(&mut self) -> (item: Option<&'a T>)
        ensures
            item is Some <==> old(self)@.len() > 0,
            item is Some ==> top(old(self)@) == Some(*item.unwrap()),
            final(self)@ == rest(old(self)@),
    {
        match self.next {
            None => None,
            Some(node) => {
                self.next = match &node.next {
                    None => None,
                    Some(boxed) => Some(&**boxed),
                };
                Some(&node.elem)
            },
        }
    }
}

/// A cursor that hands out each element of a stack for writing. Its view is
/// what is still to be handed out, next first, as it stands now.
pub struct IterMut<'a, T> {
    next: Option<&'a mut Node<T>>,
}

impl<'a, T> View for IterMut<'a, T> {
    type V = Seq<T>;

    open spec fn view(&self) -> Seq<T> {
        match self.node() {
            None => Seq::empty(),
            Some(node) => node.elems(),
        }
    }
}

impl<'a, T> IterMut<'a, T> {
    /// The exclusive reference the cursor holds: the node to hand out next,
    /// or nothing at the end of the chain.
    pub closed spec fn node(&self) -> Option<&'a mut Node<T>> {
        self.next
    }

    /// A cursor that is no longer used leaves what it had not handed out as
    /// it is.
    pub proof fn lemma_released(self)
        requires
            has_resolved(self),
        ensures
            self.node() matches Some(node) ==> final(node).elems() == self@,
    {
    }

    /// Hands out an exclusive reference to the next element and steps to the
    /// node after it. The cursor gives up its own reference before it hands
    /// one out. At the end of the chain every call hands out nothing.
    ///
    /// What the part of the chain that the cursor held before the call holds
    /// in the end is what is written through `item`, followed by what the
    /// part that the cursor holds after the call holds in the end.
    pub fn next(&mut self) -> (item: Option<&'a mut T>)
        ensures
            item is Some <==> old(self)@.len() > 0,
            item is Some ==> top(old(self)@) == Some(*item.unwrap()),
            final(self)@ == rest(old(self)@),
            final(self).node() is None <==> final(self)@.len() == 0,
            old(self).node() matches Some(before) ==> final(before).elems()
                == seq![*final(item.unwrap())] + (match final(self).node() {
                None => Seq::empty(),
                Some(after) => final(after).elems(),
            }),
    {
        match self.next.take() {
            None => None,
            Some(node) => {
                self.next = match &mut node.next {
                    None => None,
                    Some(boxed) => Some(&mut **boxed),
                };
                Some(&mut node.elem)
            },
        }
    }
}

} // verus!
