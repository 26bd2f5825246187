//! Singly-linked stacks: a chain of heap nodes owned from the head down,
//! with last-in-first-out `push` / `pop`.

pub mod first;
pub mod model;
pub mod second;
