//! A tree of nested panes for a cell display: binary splits, styled leaves,
//! a focus path through the tree and the modal editor that drives it.

pub mod editor;
pub mod geometry;
pub mod screen;
pub mod stack;
pub mod style;
pub mod tree;
pub mod widget;
