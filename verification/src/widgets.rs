//! The widgets that the sections share: the card, the skill bar, the
//! project card and the contact row.

use vstd::prelude::*;
use vstd::string::*;
use crate::state::{Message, Portfolio, Section};
use crate::style::{InteractionFlags, StyleKind};
use crate::tree::{trees_of, Alignment, Length, Node, Padding, Tree};

verus! {

/// The width of the track of a progress indicator, in layout units.
pub const TRACK_WIDTH: u16 = 300;

/// The height of the track of a progress indicator.
pub const TRACK_HEIGHT: u16 = 8;

/// The room between a card's edge and its content.
pub const CARD_PADDING: u16 = 24;

/// The width of the filled part of the track for a level given in percent:
/// the track's width times the level, over one hundred, rounded down.
pub open spec fn fill_width_of(level: u8) -> int {
    (TRACK_WIDTH * level) / 100
}

/// The character of a decimal digit.
pub open spec fn digit_char(digit: int) -> char {
    if digit == 0 {
        '0'
    } else if digit == 1 {
        '1'
    } else if digit == 2 {
        '2'
    } else if digit == 3 {
        '3'
    } else if digit == 4 {
        '4'
    } else if digit == 5 {
        '5'
    } else if digit == 6 {
        '6'
    } else if digit == 7 {
        '7'
    } else if digit == 8 {
        '8'
    } else {
        '9'
    }
}

/// A number written in decimal digits, without leading zeros.
pub open spec fn decimal_text(n: nat) -> Seq<char>
    decreases n,
{
    if n < 10 {
        seq![digit_char(n as int)]
    } else {
        decimal_text(n / 10).push(digit_char((n % 10) as int))
    }
}

/// A level as it is shown beside its bar: the number and a percent sign.
pub open spec fn percent_text(level: u8) -> Seq<char> {
    decimal_text(level as nat).push('%')
}

/// The texts of a run of strings, in the same order.
pub open spec fn texts_of(items: Seq<&str>) -> Seq<Seq<char>> {
    Seq::new(items.len(), |i: int| items[i]@)
}

/// A card: `content` inside a padded box of the card style.
pub open spec fn card_tree(content: Tree) -> Tree {
    Tree::styled_box(content, StyleKind::Card, Padding::all(CARD_PADDING))
}

/// The two layers of a progress indicator: the track, and inside it the fill
/// whose width stands for `level`.
pub open spec fn progress_tree(level: u8) -> Tree {
    Tree::Container {
        content: Box::new(
            Tree::styled_box(
                Tree::gap_beside(fill_width_of(level) as u16),
                StyleKind::ProgressFill,
                Padding::none(),
            ),
        ),
        padding: Padding::none(),
        width: Length::Fixed(TRACK_WIDTH),
        height: Length::Fixed(TRACK_HEIGHT),
        center_x: false,
        center_y: false,
        style: Some(StyleKind::ProgressTrack),
    }
}

/// A skill bar: the name and the percentage on one line, the progress
/// indicator below.
pub open spec fn skill_bar_tree(name: Seq<char>, level: u8) -> Tree {
    Tree::Column {
        children: seq![
            Tree::Row {
                children: seq![
                    Tree::text(name, 14),
                    Tree::filler(),
                    Tree::text(percent_text(level), 14),
                ],
                spacing: 0,
                align: Alignment::Start,
            },
            Tree::gap_below(4),
            progress_tree(level),
        ],
        spacing: 0,
        align: Alignment::Start,
        padding: 0,
    }
}

/// The pill that shows one tag.
pub open spec fn pill_tree(tag: Seq<char>) -> Tree {
    Tree::styled_box(Tree::text(tag, 12), StyleKind::TechPill, Padding::sides(4, 8))
}

/// The pills of a project's tags: one per tag, in the order of the tags.
pub open spec fn pill_trees(tags: Seq<Seq<char>>) -> Seq<Tree> {
    Seq::new(tags.len(), |i: int| pill_tree(tags[i]))
}

/// The control at the foot of a project card.
pub open spec fn project_action_tree() -> Tree {
    Tree::Button {
        label: "View on GitHub"@,
        label_size: 14,
        padding: Padding::sides(8, 16),
        style: StyleKind::PrimaryButton,
        flags: InteractionFlags { is_active: false },
        on_press: Message::NavigateTo(Section::Projects),
    }
}

/// A project card: title, description, the row of tag pills and the action
/// control, inside a card.
pub open spec fn project_card_tree(
    title: Seq<char>,
    description: Seq<char>,
    tags: Seq<Seq<char>>,
) -> Tree {
    card_tree(
        Tree::Column {
            children: seq![
                Tree::heading(title, 20),
                Tree::gap_below(8),
                Tree::text(description, 14),
                Tree::gap_below(12),
                Tree::Row { children: pill_trees(tags), spacing: 8, align: Alignment::Start },
                Tree::gap_below(16),
                project_action_tree(),
            ],
            spacing: 0,
            align: Alignment::Start,
            padding: 0,
        },
    )
}

/// A contact row: the icon, then the text, centred on one line.
pub open spec fn contact_item_tree(icon: Seq<char>, info: Seq<char>) -> Tree {
    Tree::Row {
        children: seq![Tree::text(icon, 20), Tree::gap_beside(12), Tree::text(info, 16)],
        spacing: 0,
        align: Alignment::Center,
    }
}

/// The width of the filled part of the track for `level` percent.
pub fn fill_width(level: u8) -> (width: u16)
    ensures
        width == fill_width_of(level),
        width == 3 * level,
        level <= 100 ==> width <= TRACK_WIDTH,
{
    assert(TRACK_WIDTH * level == 300 * level) by (nonlinear_arith)
        requires
            TRACK_WIDTH == 300,
    ;
    let scaled: u32 = (TRACK_WIDTH as u32) * (level as u32);
    (scaled / 100) as u16
}

/// The fill grows by three units per percent, never shrinks as the level
/// grows, and stays inside the track for every level up to one hundred.
pub proof fn lemma_fill_width(level: u8, higher: u8)
    requires
        level <= higher,
    ensures
        fill_width_of(level) == 3 * level,
        fill_width_of(level) <= fill_width_of(higher),
        level <= 100 ==> fill_width_of(level) <= TRACK_WIDTH,
        level == 100 ==> fill_width_of(level) == TRACK_WIDTH,
{
    assert(TRACK_WIDTH * level == 300 * level) by (nonlinear_arith)
        requires
            TRACK_WIDTH == 300,
    ;
    assert(TRACK_WIDTH * higher == 300 * higher) by (nonlinear_arith)
        requires
            TRACK_WIDTH == 300,
    ;
}

/// A project card shows one pill per tag, in the order of the tags.
pub proof fn lemma_one_pill_per_tag(title: Seq<char>, description: Seq<char>, tags: Seq<Seq<char>>)
    ensures
        pill_trees(tags).len() == tags.len(),
        forall|i: int| 0 <= i < tags.len() ==> (#[trigger] pill_trees(tags)[i]) == pill_tree(tags[i]),
        project_card_tree(title, description, tags)->Container_content->Column_children[4] == (
        Tree::Row { children: pill_trees(tags), spacing: 8, align: Alignment::Start }),
{
}

/// The one-character text of a decimal digit.
fn digit_text(digit: u8) -> (text: &'static str)
    requires
        digit < 10,
    ensures
        text@ == seq![digit_char(digit as int)],
{
    proof {
        reveal_strlit("0");
        reveal_strlit("1");
        reveal_strlit("2");
        reveal_strlit("3");
        reveal_strlit("4");
        reveal_strlit("5");
        reveal_strlit("6");
        reveal_strlit("7");
        reveal_strlit("8");
        reveal_strlit("9");
    }
    let text = if digit == 0 {
        "0"
    } else if digit == 1 {
        "1"
    } else if digit == 2 {
        "2"
    } else if digit == 3 {
        "3"
    } else if digit == 4 {
        "4"
    } else if digit == 5 {
        "5"
    } else if digit == 6 {
        "6"
    } else if digit == 7 {
        "7"
    } else if digit == 8 {
        "8"
    } else {
        "9"
    };
    assert(text@ =~= seq![digit_char(digit as int)]);
    text
}

/// Writes a level as it is shown beside its bar.
pub fn percent_label(level: u8) -> (label: String)
    ensures
        label@ == percent_text(level),
{
    let mut label = String::new();
    if level >= 100 {
        label.append(digit_text(level / 100));
    }
    if level >= 10 {
        label.append(digit_text((level / 10) % 10));
    }
    label.append(digit_text(level % 10));
    proof {
        reveal_strlit("%");
        reveal_with_fuel(decimal_text, 3);
        assert(label@ =~= decimal_text(level as nat));
    }
    label.append("%");
    assert(label@ =~= percent_text(level));
    label
}

impl Portfolio {
    /// Wraps `content` in a card.
    pub fn card(&self, content: Node) -> (node: Node)
        ensures
            node@ == card_tree(content@),
    {
        Node::styled_box(content, StyleKind::Card, Padding::all(CARD_PADDING))
    }

    /// A label and a percentage above a progress indicator filled to `level`
    /// percent.
    pub fn skill_bar(&self, name: &str, level: u8) -> (node: Node)
        requires
            level <= 100,
        ensures
            node@ == skill_bar_tree(name@, level),
    {
        let label = percent_label(level);
        let line = Node::row(
            vec![Node::text(name, 14), Node::filler(), Node::text(label.as_str(), 14)],
            0,
            Alignment::Start,
        );
        assert(line@->Row_children == skill_bar_tree(name@, level)->Column_children[0]->Row_children);
        let fill = Node::styled_box(
            Node::gap_beside(fill_width(level)),
            StyleKind::ProgressFill,
            Padding::none(),
        );
        let track = Node::container(
            fill,
            Padding::none(),
            Length::Fixed(TRACK_WIDTH),
            Length::Fixed(TRACK_HEIGHT),
            false,
            false,
            Some(StyleKind::ProgressTrack),
        );
        let node = Node::column(vec![line, Node::gap_below(4), track], 0, Alignment::Start, 0);
        assert(node@->Column_children == skill_bar_tree(name@, level)->Column_children);
        node
    }

    /// Title, description, one pill per entry of `tech` in the order given,
    /// and the action control, inside a card.
    pub fn project_card(&self, title: &str, description: &str, tech: &[&str]) -> (node: Node)
        ensures
            node@ == project_card_tree(title@, description@, texts_of(tech@)),
    {
        let mut pills: Vec<Node> = Vec::new();
        let mut i: usize = 0;
        while i < tech.len()
            invariant
                i <= tech@.len(),
                pills@.len() == i,
                forall|j: int| 0 <= j < i ==> (#[trigger] pills@[j])@ == pill_tree(tech@[j]@),
            decreases tech@.len() - i,
        {
            pills.push(
                Node::styled_box(Node::text(tech[i], 12), StyleKind::TechPill, Padding::sides(4, 8)),
            );
            i += 1;
        }
        let pill_row = Node::row(pills, 8, Alignment::Start);
        assert(pill_row@->Row_children == pill_trees(texts_of(tech@)));
        let action = Node::button(
            "View on GitHub",
            14,
            Padding::sides(8, 16),
            StyleKind::PrimaryButton,
            InteractionFlags { is_active: false },
            Message::NavigateTo(Section::Projects),
        );
        let body = Node::column(
            vec![
                Node::heading(title, 20),
                Node::gap_below(8),
                Node::text(description, 14),
                Node::gap_below(12),
                pill_row,
                Node::gap_below(16),
                action,
            ],
            0,
            Alignment::Start,
            0,
        );
        let ghost expected = project_card_tree(title@, description@, texts_of(tech@));
        assert(body@->Column_children == expected->Container_content->Column_children);
        self.card(body)
    }

    /// A contact row: `icon`, then `info`.
    pub fn contact_item(&self, icon: &str, info: &str) -> (node: Node)
        ensures
            node@ == contact_item_tree(icon@, info@),
    {
        let node = Node::row(
            vec![Node::text(icon, 20), Node::gap_beside(12), Node::text(info, 16)],
            0,
            Alignment::Center,
        );
        assert(node@->Row_children == contact_item_tree(icon@, info@)->Row_children);
        node
    }
}

} // verus!
