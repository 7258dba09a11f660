//! The reactive core of a single-window profile viewer.
//!
//! The viewer shows one of five sections below a navigation bar and can
//! switch its theme. This crate holds everything of it that decides or
//! computes, and nothing that draws:
//!
//! * [`state`]: the state of the application and the messages that change
//!   it, with [`update`] as the only transition;
//! * [`style`]: the style table, with [`resolve`] from a kind of widget, a
//!   theme and the flags of an instance to its appearance;
//! * [`tree`]: the value that describes a frame, widget by widget;
//! * [`widgets`] and [`sections`]: the composition of that value from the
//!   state, with [`render`] for the whole window;
//! * [`content`]: the fixed texts and lists that the sections show.
//!
//! Every function states what it returns over the mathematical value of its
//! result: for a [`Node`] that is a [`Tree`], whose texts are sequences of
//! characters and whose children are sequences of trees.

pub mod content;
pub mod sections;
pub mod state;
pub mod style;
pub mod tree;
pub mod widgets;

pub use sections::render;
pub use state::{update, Message, Portfolio, Section, Theme};
pub use style::{resolve, Appearance, Color, InteractionFlags, StyleKind};
pub use tree::{Alignment, Length, Node, Padding, Tree};
