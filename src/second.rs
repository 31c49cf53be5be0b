//! A singly linked list whose links are `Option<Box<Node<T>>>`.

use vstd::prelude::*;

verus! {

pub struct List<T> {
    head: Link<T>,
}

type Link<T> = Option<Box<Node<T>>>;

pub struct Node<T> {
    elem: T,
    link: Link<T>,
}

/// The values held by a chain of links, head first.
spec fn link_view<T>(link: Link<T>) -> Seq<T>
    decreases link,
{
    match link {
        None => Seq::empty(),
        Some(node) => seq![node.elem] + link_view(node.link),
    }
}

/// The first value of `s`, if any.
pub open spec fn front<T>(s: Seq<T>) -> Option<T> {
    if s.len() == 0 {
        None
    } else {
        Some(s[0])
    }
}

/// `s` without its first value; the empty sequence stays empty.
pub open spec fn rest<T>(s: Seq<T>) -> Seq<T> {
    if s.len() == 0 {
        s
    } else {
        s.drop_first()
    }
}

/// The values of a list that held `s` once each of `vs` has been pushed
/// onto it, in the order of `vs`.
pub open spec fn push_all<T>(s: Seq<T>, vs: Seq<T>) -> Seq<T>
    decreases vs.len(),
{
    if vs.len() == 0 {
        s
    } else {
        push_all(seq![vs[0]] + s, vs.drop_first())
    }
}

/// What `n` pops in a row return from a list that holds `s`.
pub open spec fn pop_n<T>(s: Seq<T>, n: nat) -> Seq<Option<T>>
    decreases n,
{
    if n == 0 {
        Seq::empty()
    } else {
        seq![front(s)] + pop_n(rest(s), (n - 1) as nat)
    }
}

/// What is left of a list that holds `s` after `n` pops in a row.
pub open spec fn after_pops<T>(s: Seq<T>, n: nat) -> Seq<T>
    decreases n,
{
    if n == 0 {
        s
    } else {
        after_pops(rest(s), (n - 1) as nat)
    }
}

/// A push followed by a pop returns the pushed value and leaves the list
/// as it was.
pub proof fn lemma_push_then_pop<T>(s: Seq<T>, v: T)
    ensures
        front(seq![v] + s) == Some(v),
        rest(seq![v] + s) == s,
{
    assert((seq![v] + s).drop_first() =~= s);
}

proof fn lemma_push_all_prepends_reverse<T>(s: Seq<T>, vs: Seq<T>)
    ensures
        push_all(s, vs) == vs.reverse() + s,
    decreases vs.len(),
{
    if vs.len() > 0 {
        lemma_push_all_prepends_reverse(seq![vs[0]] + s, vs.drop_first());
        assert(vs.drop_first().reverse() + (seq![vs[0]] + s) =~= vs.reverse() + s);
    }
}

/// Pushing `v1, ..., vn` onto an empty list and then popping `n + 1` times
/// returns `vn, ..., v1` and then nothing: pops come out in the reverse
/// order of the pushes, and after the first `n` pops the list is empty.
/// `push_all` and `pop_n` take one step per call exactly as the contracts
/// of `List::push` and `List::pop` do.
pub proof fn lemma_pops_reverse_pushes<T>(vs: Seq<T>)
    ensures
        after_pops(push_all(Seq::empty(), vs), vs.len()) == Seq::<T>::empty(),
        pop_n(push_all(Seq::empty(), vs), vs.len() + 1) == vs.reverse().map_values(
            |v: T| Some(v),
        ).push(None),
{
    lemma_push_all_prepends_reverse(Seq::empty(), vs);
    let p = vs.reverse();
    assert(p + Seq::<T>::empty() =~= p);
    lemma_pop_n_after_prefix(p);
    lemma_after_pops_empties(p);
}

proof fn lemma_after_pops_empties<T>(p: Seq<T>)
    ensures
        after_pops(p, p.len()) == Seq::<T>::empty(),
    decreases p.len(),
{
    if p.len() > 0 {
        lemma_after_pops_empties(p.drop_first());
    } else {
        assert(p =~= Seq::<T>::empty());
    }
}

proof fn lemma_pop_n_after_prefix<T>(p: Seq<T>)
    ensures
        pop_n(p, p.len() + 1) == p.map_values(|v: T| Some(v)).push(None),
    decreases p.len(),
{
    if p.len() == 0 {
        assert(pop_n(rest(p), 0) == Seq::<Option<T>>::empty());
        assert(pop_n(p, 1) =~= seq![None::<T>]);
        assert(p.map_values(|v: T| Some(v)).push(None) =~= seq![None::<T>]);
    } else {
        lemma_pop_n_after_prefix(p.drop_first());
        assert(rest(p) == p.drop_first());
        assert(p.map_values(|v: T| Some(v)).push(None) =~= seq![Some(p[0])] + p.drop_first().map_values(
            |v: T| Some(v),
        ).push(None));
    }
}

impl<T> View for List<T> {
    type V = Seq<T>;

    closed spec fn view(&self) -> Seq<T> {
        link_view(self.head)
    }
}

impl<T> View for Node<T> {
    type V = Seq<T>;

    /// The values from this node to the tail, this node's value first.
    closed spec fn view(&self) -> Seq<T> {
        seq![self.elem] + link_view(self.link)
    }
}

impl<T> List<T> {
    /// Creates an empty list.
    pub fn new() -> (r: Self)
        ensures
            r@ == Seq::<T>::empty(),
    {
        List { head: None }
    }

    /// Whether the list holds no node.
    pub fn empty(&self) -> (r: bool)
        ensures
            r == (self@.len() == 0),
    {
        self.head.is_none()
    }

    /// Pushes a new value as the head node.
    pub fn push(&mut self, elem: T)
        ensures
            final(self)@ == seq![elem] + old(self)@,
    {
        self.head = Some(Box::new(Node { elem: elem, link: self.head.take() }));
    }

    /// Removes the head node and returns its value; `None` on an empty list.
    pub fn pop(&mut self) -> (r: Option<T>)
        ensures
            r == front(old(self)@),
            final(self)@ == rest(old(self)@),
    {
        match self.head.take() {
            None => None,
            Some(node) => {
                let node = *node;
                self.head = node.link;
                Some(node.elem)
            },
        }
    }

    /// A shared view of the head value; `None` on an empty list.
    pub fn peek(&self) -> (r: Option<&T>)
        ensures
            self@.len() == 0 ==> r is None,
            self@.len() > 0 ==> r is Some && *r->Some_0 == self@[0],
    {
        match &self.head {
            None => None,
            Some(node) => Some(&node.elem),
        }
    }

    /// The head node, as a cursor into the list.
    pub fn head(&mut self) -> (r: &mut Node<T>)
        requires
            old(self)@.len() > 0,
        ensures
            r@ == old(self)@,
            final(self)@ == final(r)@,
    {
        let node = self.head.as_mut().unwrap();
        &mut **node
    }

    /// Turns the list into an iterator that pops its values.
    pub fn into_iter(self) -> (r: IntoIter<T>)
        ensures
            r@ == self@,
    {
        IntoIter(self)
    }
}

impl<T> Node<T> {
    /// A node's values always start with the node's own value.
    pub proof fn lemma_view_not_empty(&self)
        ensures
            self@.len() >= 1,
    {
    }

    /// Inserts a new value right after this node.
    pub fn insert(&mut self, elem: T)
        ensures
            old(self)@.len() >= 1,
            final(self)@ == old(self)@.insert(1, elem),
    {
        let node = Box::new(Node { elem: elem, link: self.link.take() });
        self.link = Some(node);
    }

    /// Detaches everything after this node and returns it as a list of its
    /// own; this node becomes the tail.
    pub fn split(&mut self) -> (r: List<T>)
        ensures
            old(self)@.len() >= 1,
            r@ == old(self)@.skip(1),
            final(self)@ == old(self)@.take(1),
    {
        List { head: self.link.take() }
    }

    /// Whether a node follows this one.
    pub fn has_next(&self) -> (r: bool)
        ensures
            r == (self@.len() > 1),
    {
        self.link.is_some()
    }

    /// The node after this one.
    pub fn next(&mut self) -> (r: &mut Node<T>)
        requires
            old(self)@.len() > 1,
        ensures
            r@ == old(self)@.skip(1),
            final(self)@ == old(self)@.take(1) + final(r)@,
    {
        let node = self.link.as_mut().unwrap();
        &mut **node
    }
}

/// Consumes a list, handing out its values head first.
pub struct IntoIter<T>(List<T>);

impl<T> View for IntoIter<T> {
    type V = Seq<T>;

    /// The values not yet handed out.
    closed spec fn view(&self) -> Seq<T> {
        self.0@
    }
}

impl<T> IntoIter<T> {
    /// The next value; `None` once the values are used up, and on every
    /// call after that.
    pub fn next(&mut self) -> (r: Option<T>)
        ensures
            r == front(old(self)@),
            final(self)@ == rest(old(self)@),
    {
        self.0.pop()
    }
}

impl<T> Drop for List<T> {
    /// Releases the nodes one at a time, so that a long chain does not
    /// recurse through the destructors of its boxes.
    fn drop(&mut self)
        ensures
            final(self)@ == Seq::<T>::empty(),
        opens_invariants none
        no_unwind
    {
        loop
            ensures
                self@ == Seq::<T>::empty(),
            decreases self@.len(),
        {
            let mut first: Link<T> = None;
            core::mem::swap(&mut first, &mut self.head);
            match first {
                None => break,
                Some(node) => {
                    let node = *node;
                    self.head = node.link;
                },
            }
        }
    }
}

} // verus!
