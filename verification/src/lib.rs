//! Styled markup components: cards, progress groups and bars, and buttons.
//!
//! Every component here is a stateless mapping from an immutable property
//! record to a markup element: a tag, an ordered attribute list, and an
//! ordered child list. A host render engine owns instantiation, child
//! recursion and reconciliation; this crate only computes the tree, and each
//! `view` function carries a contract that pins the tree it produces.

pub mod markup;
pub mod util;
pub mod decimal;
pub mod card;
pub mod progress;
pub mod button;
