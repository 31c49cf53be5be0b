//! A singly linked list whose links are an enum of their own: `Empty`, or a
//! pointer that owns the next node.

use vstd::prelude::*;

verus! {

pub struct List<T> {
    head: Link<T>,
}

enum Link<T> {
    Empty,
    Ptr(Box<Node<T>>),
}

pub struct Node<T> {
    elem: T,
    link: Link<T>,
}

/// The values held by a chain of links, head first.
spec fn link_view<T>(link: Link<T>) -> Seq<T>
    decreases link,
{
    match link {
        Link::Empty => Seq::empty(),
        Link::Ptr(node) => seq![node.elem] + link_view(node.link),
    }
}

/// Moves the chain out of `slot`, leaving `Empty` behind.
fn take_link<T>(slot: &mut Link<T>) -> (r: Link<T>)
    ensures
        r == *old(slot),
        *final(slot) == Link::<T>::Empty,
    opens_invariants none
    no_unwind
{
    let mut r = Link::Empty;
    core::mem::swap(&mut r, slot);
    r
}

impl<T> Link<T> {
    /// A mutable borrow of the owned node, if there is one.
    fn node_mut(&mut self) -> (r: Option<&mut Box<Node<T>>>)
        ensures
            match *old(self) {
                Link::Empty => r is None && *final(self) == Link::<T>::Empty,
                Link::Ptr(node) => r is Some && *r.unwrap() == node && *final(self) == Link::Ptr(
                    *final(r.unwrap()),
                ),
            },
    {
        match self {
            Link::Empty => None,
            Link::Ptr(node) => Some(node),
        }
    }
}

impl<T> View for List<T> {
    type V = Seq<T>;

    closed spec fn view(&self) -> Seq<T> {
        link_view(self.head)
    }
}

impl<T> View for Node<T> {
    type V = Seq<T>;

    /// The values from this node to the tail, this node's value first.
    closed spec fn view(&self) -> Seq<T> {
        seq![self.elem] + link_view(self.link)
    }
}

impl<T> List<T> {
    /// Creates an empty list.
    pub fn new() -> (r: Self)
        ensures
            r@ == Seq::<T>::empty(),
    {
        List { head: Link::Empty }
    }

    /// Whether the list holds no node.
    pub fn empty(&self) -> (r: bool)
        ensures
            r == (self@.len() == 0),
    {
        match self.head {
            Link::Empty => true,
            Link::Ptr(_) => false,
        }
    }

    /// The head node, as a cursor into the list.
    pub fn head(&mut self) -> (r: &mut Node<T>)
        requires
            old(self)@.len() > 0,
        ensures
            r@ == old(self)@,
            final(self)@ == final(r)@,
    {
        let node = self.head.node_mut().unwrap();
        &mut **node
    }

    /// Pushes a new value as the head node.
    pub fn push(&mut self, elem: T)
        ensures
            final(self)@ == seq![elem] + old(self)@,
    {
        let link = take_link(&mut self.head);
        self.head = Link::Ptr(Box::new(Node { elem: elem, link: link }));
    }

    /// Removes the head node and returns its value; `None` on an empty list.
    pub fn pop(&mut self) -> (r: Option<T>)
        ensures
            old(self)@.len() == 0 ==> r is None && final(self)@ == old(self)@,
            old(self)@.len() > 0 ==> r == Some(old(self)@[0]) && final(self)@ == old(
                self,
            )@.drop_first(),
    {
        match take_link(&mut self.head) {
            Link::Empty => None,
            Link::Ptr(node) => {
                let node = *node;
                self.head = node.link;
                Some(node.elem)
            },
        }
    }
}

impl<T> Drop for List<T> {
    /// Releases the nodes one at a time, so that a long chain does not
    /// recurse through the destructors of its boxes.
    fn drop(&mut self)
        ensures
            final(self)@ == Seq::<T>::empty(),
        opens_invariants none
        no_unwind
    {
        loop
            ensures
                self@ == Seq::<T>::empty(),
            decreases self@.len(),
        {
            match take_link(&mut self.head) {
                Link::Empty => break,
                Link::Ptr(node) => {
                    let node = *node;
                    self.head = node.link;
                },
            }
        }
    }
}

impl<T> Node<T> {
    /// A node's values always start with the node's own value.
    pub proof fn lemma_view_not_empty(&self)
        ensures
            self@.len() >= 1,
    {
    }

    /// Inserts a new value right after this node.
    pub fn insert(&mut self, elem: T)
        ensures
            old(self)@.len() >= 1,
            final(self)@ == old(self)@.insert(1, elem),
    {
        let link = take_link(&mut self.link);
        self.link = Link::Ptr(Box::new(Node { elem: elem, link: link }));
    }

    /// Detaches everything after this node and returns it as a list of its
    /// own; this node becomes the tail.
    pub fn split(&mut self) -> (r: List<T>)
        ensures
            old(self)@.len() >= 1,
            r@ == old(self)@.skip(1),
            final(self)@ == old(self)@.take(1),
    {
        List { head: take_link(&mut self.link) }
    }

    /// Whether a node follows this one.
    pub fn has_next(&self) -> (r: bool)
        ensures
            r == (self@.len() > 1),
    {
        match &self.link {
            Link::Empty => false,
            Link::Ptr(_) => true,
        }
    }

    /// The node after this one.
    pub fn next(&mut self) -> (r: &mut Node<T>)
        requires
            old(self)@.len() > 1,
        ensures
            r@ == old(self)@.skip(1),
            final(self)@ == old(self)@.take(1) + final(r)@,
    {
        let node = self.link.node_mut().unwrap();
        &mut **node
    }
}

} // verus!
