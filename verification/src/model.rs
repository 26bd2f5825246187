//! The stack as a sequence, top first, and the laws that `push`, `pop` and
//! the peeks obey on it.
//!
//! The contracts of both stacks are stated over these functions, so what is
//! proved here of sequences holds of the linked stacks themselves. A cursor
//! over a stack steps as `pop` does: its `next` hands out `top` of what is
//! still to come and leaves `rest` of it, so the laws on repeated pops are
//! laws on a traversal too.

use vstd::prelude::*;

verus! {

/// The stack after `v` was pushed onto `s`.
pub open spec fn pushed<T>(s: Seq<T>, v: T) -> Seq<T> {
    seq![v] + s
}

/// What `pop` hands out of `s`: the top element, or nothing from an empty stack.
pub open spec fn top<T>(s: Seq<T>) -> Option<T> {
    if s.len() == 0 {
        None
    } else {
        Some(s[0])
    }
}

/// The stack that `pop` leaves of `s`: `s` without its top, or `s` itself if it is empty.
pub open spec fn rest<T>(s: Seq<T>) -> Seq<T> {
    if s.len() == 0 {
        s
    } else {
        s.skip(1)
    }
}

/// The stack after each element of `vs` was pushed onto `s`, `vs[0]` first.
pub open spec fn pushed_all<T>(s: Seq<T>, vs: Seq<T>) -> Seq<T>
    decreases vs.len(),
{
    if vs.len() == 0 {
        s
    } else {
        pushed_all(pushed(s, vs[0]), vs.skip(1))
    }
}

/// The results of `n` pops in a row from `s`, in the order they come out.
pub open spec fn popped<T>(s: Seq<T>, n: nat) -> Seq<Option<T>>
    decreases n,
{
    if n == 0 {
        Seq::empty()
    } else {
        seq![top(s)] + popped(rest(s), (n - 1) as nat)
    }
}

/// The stack that `n` pops in a row leave of `s`.
pub open spec fn rest_after<T>(s: Seq<T>, n: nat) -> Seq<T>
    decreases n,
{
    if n == 0 {
        s
    } else {
        rest_after(rest(s), (n - 1) as nat)
    }
}

/// Pushing `vs` onto `s` puts `vs` on top in reverse order and leaves `s` below.
pub proof fn lemma_pushed_all_is_reverse<T>(s: Seq<T>, vs: Seq<T>)
    ensures
        pushed_all(s, vs) == vs.reverse() + s,
    decreases vs.len(),
{
    if vs.len() > 0 {
        lemma_pushed_all_is_reverse(pushed(s, vs[0]), vs.skip(1));
        assert(vs.skip(1).reverse() + pushed(s, vs[0]) =~= vs.reverse() + s);
    }
}

/// Popping as many times as `t` is long from `t + s` hands out `t` in order
/// and leaves `s`.
pub proof fn lemma_popped_prefix<T>(t: Seq<T>, s: Seq<T>)
    ensures
        popped(t + s, t.len()) == t.map_values(|v: T| Some(v)),
        rest_after(t + s, t.len()) == s,
    decreases t.len(),
{
    if t.len() > 0 {
        assert(rest(t + s) =~= t.skip(1) + s);
        lemma_popped_prefix(t.skip(1), s);
    }
}

/// Last in, first out: after the elements of `vs` are pushed onto any stack
/// in order, as many pops hand them back in reverse order, and the stack is
/// then what it was before the pushes.
pub proof fn law_lifo<T>(s: Seq<T>, vs: Seq<T>)
    ensures
        popped(pushed_all(s, vs), vs.len()) == vs.reverse().map_values(|v: T| Some(v)),
        rest_after(pushed_all(s, vs), vs.len()) == s,
{
    lemma_pushed_all_is_reverse(s, vs);
    lemma_popped_prefix(vs.reverse(), s);
}

/// One push followed by one pop hands the pushed element back and restores
/// the stack.
pub proof fn law_push_then_pop<T>(s: Seq<T>, v: T)
    ensures
        top(pushed(s, v)) == Some(v),
        rest(pushed(s, v)) == s,
{
}

/// An empty stack stays empty under `pop`: every one of `n` pops in a row
/// hands out nothing and leaves the stack empty.
pub proof fn law_pop_empty<T>(s: Seq<T>, n: nat)
    requires
        s.len() == 0,
    ensures
        popped(s, n).len() == n,
        forall|i: int| 0 <= i < n ==> popped(s, n)[i] is None,
        rest_after(s, n) == s,
    decreases n,
{
    if n > 0 {
        law_pop_empty(s, (n - 1) as nat);
    }
}

/// Popping past the end: of `n` pops in a row from `s`, the first `s.len()`
/// hand out the elements of `s` in order, every later one hands out nothing,
/// and with `n` at least `s.len()` the stack ends empty.
pub proof fn law_pop_exhausts<T>(s: Seq<T>, n: nat)
    ensures
        popped(s, n).len() == n,
        forall|i: int| 0 <= i < n && i < s.len() ==> popped(s, n)[i] == Some(s[i]),
        forall|i: int| s.len() <= i < n ==> popped(s, n)[i] is None,
        n >= s.len() ==> rest_after(s, n).len() == 0,
    decreases n,
{
    if n > 0 {
        law_pop_exhausts(rest(s), (n - 1) as nat);
    }
}

/// A write to the top element is what the next `pop` hands out, and it
/// changes nothing below the top.
pub proof fn law_write_top_then_pop<T>(s: Seq<T>, v: T)
    requires
        s.len() > 0,
    ensures
        top(s.update(0, v)) == Some(v),
        rest(s.update(0, v)) == rest(s),
{
}

} // verus!
