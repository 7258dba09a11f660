//! The displayed tree: a value that describes every widget of a frame, its
//! layout and its style, and nothing of how it is drawn.

use vstd::prelude::*;
use crate::state::Message;
use crate::style::{Color, InteractionFlags, StyleKind};

verus! {

/// How much room a widget takes along one axis.
#[derive(Clone, Copy, Debug, PartialEq, Eq, Structural)]
pub enum Length {
    /// As little as its content needs.
    Shrink,
    /// All that is left.
    Fill,
    /// A number of layout units.
    Fixed(u16),
}

/// Where the items of a row or column sit across its axis.
#[derive(Clone, Copy, Debug, PartialEq, Eq, Structural)]
pub enum Alignment {
    Start,
    Center,
}

/// The room between a widget's edge and its content.
#[derive(Clone, Copy, Debug, PartialEq, Eq, Structural)]
pub struct Padding {
    pub vertical: u16,
    pub horizontal: u16,
}

/// One widget with everything below it.
#[derive(Debug, PartialEq, Eq)]
#[allow(inconsistent_fields)]
pub enum Node {
    /// A run of text. `color` is `None` where the text takes the colour of
    /// its surroundings.
    Text { content: String, size: u16, color: Option<Color>, centered: bool },
    /// Empty room.
    Space { width: Length, height: Length },
    /// A labelled control that emits `on_press` when it is activated.
    Button {
        label: String,
        label_size: u16,
        padding: Padding,
        style: StyleKind,
        flags: InteractionFlags,
        on_press: Message,
    },
    /// Items laid out from left to right.
    Row { children: Vec<Node>, spacing: u16, align: Alignment },
    /// Items laid out from top to bottom.
    Column { children: Vec<Node>, spacing: u16, align: Alignment, padding: u16 },
    /// A box round one widget. `style` is `None` where the box does not show.
    Container {
        content: Box<Node>,
        padding: Padding,
        width: Length,
        height: Length,
        center_x: bool,
        center_y: bool,
        style: Option<StyleKind>,
    },
    /// A viewport that scrolls over one widget.
    Scrollable { content: Box<Node>, height: Length },
}

/// The mathematical value of a [`Node`]: text as sequences of characters,
/// children as sequences of trees.
#[allow(inconsistent_fields)]
pub enum Tree {
    Text { content: Seq<char>, size: u16, color: Option<Color>, centered: bool },
    Space { width: Length, height: Length },
    Button {
        label: Seq<char>,
        label_size: u16,
        padding: Padding,
        style: StyleKind,
        flags: InteractionFlags,
        on_press: Message,
    },
    Row { children: Seq<Tree>, spacing: u16, align: Alignment },
    Column { children: Seq<Tree>, spacing: u16, align: Alignment, padding: u16 },
    Container {
        content: Box<Tree>,
        padding: Padding,
        width: Length,
        height: Length,
        center_x: bool,
        center_y: bool,
        style: Option<StyleKind>,
    },
    Scrollable { content: Box<Tree>, height: Length },
}

impl Node {
    /// The tree that this node stands for.
    pub open spec fn tree(&self) -> Tree
        decreases self,
    {
        match self {
            Node::Text { content, size, color, centered } => Tree::Text {
                content: content@,
                size: *size,
                color: *color,
                centered: *centered,
            },
            Node::Space { width, height } => Tree::Space { width: *width, height: *height },
            Node::Button { label, label_size, padding, style, flags, on_press } => Tree::Button {
                label: label@,
                label_size: *label_size,
                padding: *padding,
                style: *style,
                flags: *flags,
                on_press: *on_press,
            },
            Node::Row { children, spacing, align } => Tree::Row {
                children: Seq::new(
                    children@.len(),
                    |i: int|
                        if 0 <= i < children@.len() {
                            children@[i].tree()
                        } else {
                            arbitrary()
                        },
                ),
                spacing: *spacing,
                align: *align,
            },
            Node::Column { children, spacing, align, padding } => Tree::Column {
                children: Seq::new(
                    children@.len(),
                    |i: int|
                        if 0 <= i < children@.len() {
                            children@[i].tree()
                        } else {
                            arbitrary()
                        },
                ),
                spacing: *spacing,
                align: *align,
                padding: *padding,
            },
            Node::Container { content, padding, width, height, center_x, center_y, style } => {
                Tree::Container {
                    content: Box::new(content.tree()),
                    padding: *padding,
                    width: *width,
                    height: *height,
                    center_x: *center_x,
                    center_y: *center_y,
                    style: *style,
                }
            },
            Node::Scrollable { content, height } => Tree::Scrollable {
                content: Box::new(content.tree()),
                height: *height,
            },
        }
    }
}

impl View for Node {
    type V = Tree;

    open spec fn view(&self) -> Tree {
        self.tree()
    }
}

/// The trees of a run of nodes, in the same order.
pub open spec fn trees_of(nodes: Seq<Node>) -> Seq<Tree> {
    Seq::new(nodes.len(), |i: int| nodes[i]@)
}

impl Padding {
    pub open spec fn spec_all(units: u16) -> Padding {
        Padding { vertical: units, horizontal: units }
    }

    pub open spec fn spec_none() -> Padding {
        Padding { vertical: 0, horizontal: 0 }
    }

    pub open spec fn spec_sides(vertical: u16, horizontal: u16) -> Padding {
        Padding { vertical, horizontal }
    }

    /// `vertical` units above and below, `horizontal` units left and right.
    #[verifier::when_used_as_spec(spec_sides)]
    pub fn sides(vertical: u16, horizontal: u16) -> (p: Padding)
        ensures
            p == Self::spec_sides(vertical, horizontal),
    {
        Padding { vertical, horizontal }
    }

    /// The same room on all four sides.
    #[verifier::when_used_as_spec(spec_all)]
    pub fn all(units: u16) -> (p: Padding)
        ensures
            p == Self::spec_all(units),
    {
        Padding { vertical: units, horizontal: units }
    }

    /// No room at all.
    #[verifier::when_used_as_spec(spec_none)]
    pub fn none() -> (p: Padding)
        ensures
            p == Self::spec_none(),
    {
        Padding { vertical: 0, horizontal: 0 }
    }
}

impl Tree {
    /// Text of the given size in the colour of its surroundings.
    pub open spec fn text(content: Seq<char>, size: u16) -> Tree {
        Tree::Text { content, size, color: None, centered: false }
    }

    /// Text in the accent colour.
    pub open spec fn heading(content: Seq<char>, size: u16) -> Tree {
        Tree::Text { content, size, color: Some(Color::accent()), centered: false }
    }

    /// Text whose lines are centred.
    pub open spec fn centered_text(content: Seq<char>, size: u16) -> Tree {
        Tree::Text { content, size, color: None, centered: true }
    }

    /// Empty room of a given height.
    pub open spec fn gap_below(height: u16) -> Tree {
        Tree::Space { width: Length::Shrink, height: Length::Fixed(height) }
    }

    /// Empty room of a given width.
    pub open spec fn gap_beside(width: u16) -> Tree {
        Tree::Space { width: Length::Fixed(width), height: Length::Shrink }
    }

    /// Empty room that takes all the width that is left.
    pub open spec fn filler() -> Tree {
        Tree::Space { width: Length::Fill, height: Length::Shrink }
    }

    /// A box of its content's size, drawn in `style`.
    pub open spec fn styled_box(content: Tree, style: StyleKind, padding: Padding) -> Tree {
        Tree::Container {
            content: Box::new(content),
            padding,
            width: Length::Shrink,
            height: Length::Shrink,
            center_x: false,
            center_y: false,
            style: Some(style),
        }
    }

    /// An invisible box as wide as the room that is left.
    pub open spec fn full_width(content: Tree) -> Tree {
        Tree::Container {
            content: Box::new(content),
            padding: Padding::none(),
            width: Length::Fill,
            height: Length::Shrink,
            center_x: false,
            center_y: false,
            style: None,
        }
    }
}

impl Node {
    /// Text of the given size in the colour of its surroundings.
    pub fn text(content: &str, size: u16) -> (node: Node)
        ensures
            node@ == Tree::text(content@, size),
    {
        Node::Text { content: content.to_owned(), size, color: None, centered: false }
    }

    /// Text in the accent colour.
    pub fn heading(content: &str, size: u16) -> (node: Node)
        ensures
            node@ == Tree::heading(content@, size),
    {
        Node::Text {
            content: content.to_owned(),
            size,
            color: Some(Color::accent()),
            centered: false,
        }
    }

    /// Text whose lines are centred.
    pub fn centered_text(content: &str, size: u16) -> (node: Node)
        ensures
            node@ == Tree::centered_text(content@, size),
    {
        Node::Text { content: content.to_owned(), size, color: None, centered: true }
    }

    /// Empty room of a given height.
    pub fn gap_below(height: u16) -> (node: Node)
        ensures
            node@ == Tree::gap_below(height),
    {
        Node::Space { width: Length::Shrink, height: Length::Fixed(height) }
    }

    /// Empty room of a given width.
    pub fn gap_beside(width: u16) -> (node: Node)
        ensures
            node@ == Tree::gap_beside(width),
    {
        Node::Space { width: Length::Fixed(width), height: Length::Shrink }
    }

    /// Empty room that takes all the width that is left.
    pub fn filler() -> (node: Node)
        ensures
            node@ == Tree::filler(),
    {
        Node::Space { width: Length::Fill, height: Length::Shrink }
    }

    /// A labelled control that emits `on_press`.
    pub fn button(
        label: &str,
        label_size: u16,
        padding: Padding,
        style: StyleKind,
        flags: InteractionFlags,
        on_press: Message,
    ) -> (node: Node)
        ensures
            node@ == (Tree::Button { label: label@, label_size, padding, style, flags, on_press }),
    {
        Node::Button { label: label.to_owned(), label_size, padding, style, flags, on_press }
    }

    /// Items laid out from left to right, in the order given.
    pub fn row(children: Vec<Node>, spacing: u16, align: Alignment) -> (node: Node)
        ensures
            node@ == (Tree::Row { children: trees_of(children@), spacing, align }),
    {
        let node = Node::Row { children, spacing, align };
        assert(node@->Row_children =~= trees_of(children@));
        node
    }

    /// Items laid out from top to bottom, in the order given.
    pub fn column(children: Vec<Node>, spacing: u16, align: Alignment, padding: u16) -> (node:
        Node)
        ensures
            node@ == (Tree::Column { children: trees_of(children@), spacing, align, padding }),
    {
        let node = Node::Column { children, spacing, align, padding };
        assert(node@->Column_children =~= trees_of(children@));
        node
    }

    /// A box round `content`.
    pub fn container(
        content: Node,
        padding: Padding,
        width: Length,
        height: Length,
        center_x: bool,
        center_y: bool,
        style: Option<StyleKind>,
    ) -> (node: Node)
        ensures
            node@ == (Tree::Container {
                content: Box::new(content@),
                padding,
                width,
                height,
                center_x,
                center_y,
                style,
            }),
    {
        Node::Container {
            content: Box::new(content),
            padding,
            width,
            height,
            center_x,
            center_y,
            style,
        }
    }

    /// A box of its content's size, drawn in `style`.
    pub fn styled_box(content: Node, style: StyleKind, padding: Padding) -> (node: Node)
        ensures
            node@ == Tree::styled_box(content@, style, padding),
    {
        Node::container(
            content,
            padding,
            Length::Shrink,
            Length::Shrink,
            false,
            false,
            Some(style),
        )
    }

    /// An invisible box as wide as the room that is left.
    pub fn full_width(content: Node) -> (node: Node)
        ensures
            node@ == Tree::full_width(content@),
    {
        Node::container(
            content,
            Padding::none(),
            Length::Fill,
            Length::Shrink,
            false,
            false,
            None,
        )
    }

    /// A viewport that scrolls over `content`.
    pub fn scrollable(content: Node, height: Length) -> (node: Node)
        ensures
            node@ == (Tree::Scrollable { content: Box::new(content@), height }),
    {
        Node::Scrollable { content: Box::new(content), height }
    }
}

} // verus!
