//! Singly linked lists that own their nodes: push and pop at the head,
//! insert after a node, split the chain at a node, and tear down long
//! chains in a loop.

pub mod first;
pub mod second;
