//! The view: the navigation bar, the five sections, and the frame that
//! holds them together.

use vstd::prelude::*;
use crate::content::{
    contacts, contacts_spec, featured_projects, featured_projects_spec, programming_skills,
    programming_skills_spec, project_views, technology_skills, technology_skills_spec, Contact,
    ProjectView, Skill, ABOUT_INTRODUCTION, ABOUT_JOURNEY, ABOUT_PASTIMES, CONTACT_INVITATION,
    FACT_FOCUS, FACT_FUEL, FACT_LANGUAGES, FACT_SYSTEM, OWNER_GLYPH, OWNER_NAME, OWNER_PITCH,
    OWNER_ROLE,
};
use crate::state::{
    lemma_section_order, section_order, sections, step, Message, Portfolio, Section, Theme,
};
use crate::style::{InteractionFlags, StyleKind};
use crate::tree::{Alignment, Length, Node, Padding, Tree};
use crate::widgets::{card_tree, contact_item_tree, project_card_tree, skill_bar_tree};

verus! {

/// The room round the content of a section.
pub const SECTION_PADDING: u16 = 40;

/// The size of the heading of a section.
pub const SECTION_HEADING_SIZE: u16 = 36;

/// The navigation button of `section`, lit where `section` is on display.
pub open spec fn nav_button_tree(section: Section, current: Section) -> Tree {
    Tree::Button {
        label: section.label_text(),
        label_size: 16,
        padding: Padding::sides(8, 16),
        style: StyleKind::NavButton,
        flags: InteractionFlags { is_active: current == section },
        on_press: Message::NavigateTo(section),
    }
}

/// The control that switches the theme.
pub open spec fn theme_toggle_tree() -> Tree {
    Tree::Button {
        label: "🌙"@,
        label_size: 20,
        padding: Padding::all(8),
        style: StyleKind::ThemeToggleButton,
        flags: InteractionFlags { is_active: false },
        on_press: Message::ToggleTheme,
    }
}

/// What the navigation bar holds: one button per section in the navigation
/// order, some room, and the theme toggle.
pub open spec fn navbar_items(current: Section) -> Seq<Tree> {
    Seq::new(
        section_order().len() + 2,
        |i: int|
            if i < section_order().len() {
                nav_button_tree(section_order()[i], current)
            } else if i == section_order().len() {
                Tree::gap_beside(20)
            } else {
                theme_toggle_tree()
            },
    )
}

/// The navigation bar while `current` is on display.
pub open spec fn navbar_tree(current: Section) -> Tree {
    Tree::styled_box(
        Tree::Row { children: navbar_items(current), spacing: 8, align: Alignment::Center },
        StyleKind::Navbar,
        Padding::all(16),
    )
}

/// A control of the home section that leads to another section.
pub open spec fn call_to_action_tree(label: Seq<char>, style: StyleKind, target: Section) -> Tree {
    Tree::Button {
        label,
        label_size: 16,
        padding: Padding::sides(12, 24),
        style,
        flags: InteractionFlags { is_active: false },
        on_press: Message::NavigateTo(target),
    }
}

/// The home section.
pub open spec fn home_tree() -> Tree {
    Tree::Container {
        content: Box::new(
            Tree::Column {
                children: seq![
                    Tree::text(OWNER_GLYPH@, 80),
                    Tree::gap_below(20),
                    Tree::heading(OWNER_NAME@, 48),
                    Tree::gap_below(10),
                    Tree::text(OWNER_ROLE@, 24),
                    Tree::gap_below(20),
                    Tree::centered_text(OWNER_PITCH@, 16),
                    Tree::gap_below(30),
                    Tree::Row {
                        children: seq![
                            call_to_action_tree(
                                "View Projects"@,
                                StyleKind::PrimaryButton,
                                Section::Projects,
                            ),
                            Tree::gap_beside(16),
                            call_to_action_tree(
                                "Get In Touch"@,
                                StyleKind::SecondaryButton,
                                Section::Contact,
                            ),
                        ],
                        spacing: 0,
                        align: Alignment::Start,
                    },
                ],
                spacing: 0,
                align: Alignment::Center,
                padding: SECTION_PADDING,
            },
        ),
        padding: Padding::none(),
        width: Length::Fill,
        height: Length::Shrink,
        center_x: true,
        center_y: true,
        style: Some(StyleKind::Hero),
    }
}

/// A section below its heading: the heading, some room, and the body,
/// centred in a padded column as wide as the window.
pub open spec fn section_frame_tree(heading: Seq<char>, room: u16, body: Tree) -> Tree {
    Tree::full_width(
        Tree::Column {
            children: seq![
                Tree::heading(heading, SECTION_HEADING_SIZE),
                Tree::gap_below(room),
                body,
            ],
            spacing: 0,
            align: Alignment::Center,
            padding: SECTION_PADDING,
        },
    )
}

/// The about section.
pub open spec fn about_tree() -> Tree {
    section_frame_tree(
        "About Me"@,
        20,
        card_tree(
            Tree::Column {
                children: seq![
                    Tree::text(ABOUT_INTRODUCTION@, 16),
                    Tree::gap_below(16),
                    Tree::text(ABOUT_JOURNEY@, 16),
                    Tree::gap_below(16),
                    Tree::text(ABOUT_PASTIMES@, 16),
                    Tree::gap_below(20),
                    Tree::heading("Quick Facts"@, 20),
                    Tree::gap_below(10),
                    Tree::text(FACT_SYSTEM@, 14),
                    Tree::text(FACT_LANGUAGES@, 14),
                    Tree::text(FACT_FOCUS@, 14),
                    Tree::text(FACT_FUEL@, 14),
                ],
                spacing: 4,
                align: Alignment::Start,
                padding: 0,
            },
        ),
    )
}

/// A group of skills: its title, some room, and one bar per skill, in the
/// order of the skills.
pub open spec fn skill_group_tree(title: Seq<char>, skills: Seq<Skill>) -> Tree {
    Tree::Column {
        children: Seq::new(
            skills.len() + 2,
            |i: int|
                if i == 0 {
                    Tree::heading(title, 20)
                } else if i == 1 {
                    Tree::gap_below(12)
                } else {
                    skill_bar_tree(skills[i - 2].name@, skills[i - 2].level)
                },
        ),
        spacing: 8,
        align: Alignment::Start,
        padding: 0,
    }
}

/// The skills section.
pub open spec fn skills_tree() -> Tree {
    section_frame_tree(
        "Skills & Technologies"@,
        30,
        Tree::Row {
            children: seq![
                card_tree(skill_group_tree("Programming Languages"@, programming_skills_spec())),
                Tree::gap_beside(20),
                card_tree(skill_group_tree("Technologies & Tools"@, technology_skills_spec())),
            ],
            spacing: 0,
            align: Alignment::Start,
        },
    )
}

/// The card of one project.
pub open spec fn project_tree(project: ProjectView) -> Tree {
    project_card_tree(project.title, project.description, project.tags)
}

/// One card per project, in the order of the projects, with room between
/// two cards.
pub open spec fn project_list_items(projects: Seq<ProjectView>) -> Seq<Tree> {
    Seq::new(
        if projects.len() == 0 {
            0
        } else {
            (2 * projects.len() - 1) as nat
        },
        |i: int|
            if i % 2 == 0 {
                project_tree(projects[i / 2])
            } else {
                Tree::gap_below(20)
            },
    )
}

/// The projects section.
pub open spec fn projects_tree() -> Tree {
    section_frame_tree(
        "Featured Projects"@,
        30,
        Tree::Column {
            children: project_list_items(featured_projects_spec()),
            spacing: 0,
            align: Alignment::Start,
            padding: 0,
        },
    )
}

/// One row per contact, in the order of the contacts.
pub open spec fn contact_list_items(entries: Seq<Contact>) -> Seq<Tree> {
    Seq::new(entries.len(), |i: int| contact_item_tree(entries[i].icon@, entries[i].text@))
}

/// The contact section.
pub open spec fn contact_tree() -> Tree {
    section_frame_tree(
        "Let's Connect"@,
        30,
        card_tree(
            Tree::Column {
                children: seq![
                    Tree::centered_text(CONTACT_INVITATION@, 18),
                    Tree::gap_below(30),
                    Tree::Column {
                        children: contact_list_items(contacts_spec()),
                        spacing: 12,
                        align: Alignment::Start,
                        padding: 0,
                    },
                ],
                spacing: 0,
                align: Alignment::Center,
                padding: 0,
            },
        ),
    )
}

/// The content of a section.
pub open spec fn section_tree(section: Section) -> Tree {
    match section {
        Section::Home => home_tree(),
        Section::About => about_tree(),
        Section::Skills => skills_tree(),
        Section::Projects => projects_tree(),
        Section::Contact => contact_tree(),
    }
}

/// The part of the window below the navigation bar: the section on display,
/// in a viewport that scrolls.
pub open spec fn current_section_tree(current: Section) -> Tree {
    Tree::Scrollable { content: Box::new(section_tree(current)), height: Length::Fill }
}

/// The whole window: the navigation bar, some room, and the section on
/// display.
pub open spec fn view_tree(state: Portfolio) -> Tree {
    Tree::Container {
        content: Box::new(
            Tree::Column {
                children: seq![
                    navbar_tree(state.current_section),
                    Tree::gap_below(20),
                    current_section_tree(state.current_section),
                ],
                spacing: 0,
                align: Alignment::Center,
                padding: 0,
            },
        ),
        padding: Padding::none(),
        width: Length::Fill,
        height: Length::Fill,
        center_x: false,
        center_y: false,
        style: None,
    }
}

/// A section below its heading.
fn section_frame(heading: &str, room: u16, body: Node) -> (node: Node)
    ensures
        node@ == section_frame_tree(heading@, room, body@),
{
    let column = Node::column(
        vec![Node::heading(heading, SECTION_HEADING_SIZE), Node::gap_below(room), body],
        0,
        Alignment::Center,
        SECTION_PADDING,
    );
    assert(column@->Column_children == seq![
        Tree::heading(heading@, SECTION_HEADING_SIZE),
        Tree::gap_below(room),
        body@,
    ]);
    Node::full_width(column)
}

/// A control of the home section that leads to `target`.
fn call_to_action(label: &str, style: StyleKind, target: Section) -> (node: Node)
    ensures
        node@ == call_to_action_tree(label@, style, target),
{
    Node::button(
        label,
        16,
        Padding::sides(12, 24),
        style,
        InteractionFlags { is_active: false },
        Message::NavigateTo(target),
    )
}

impl Portfolio {
    /// The navigation bar: one button per section in the navigation order,
    /// the one of the section on display lit, and the theme toggle.
    pub fn navbar(&self) -> (node: Node)
        ensures
            node@ == navbar_tree(self.current_section),
    {
        let order = sections();
        let mut items: Vec<Node> = Vec::new();
        let mut i: usize = 0;
        while i < order.len()
            invariant
                order@ == section_order(),
                i <= order@.len(),
                items@.len() == i,
                forall|j: int|
                    0 <= j < i ==> (#[trigger] items@[j])@ == nav_button_tree(
                        section_order()[j],
                        self.current_section,
                    ),
            decreases order@.len() - i,
        {
            let section = order[i];
            items.push(
                Node::button(
                    section.label(),
                    16,
                    Padding::sides(8, 16),
                    StyleKind::NavButton,
                    InteractionFlags { is_active: self.current_section == section },
                    Message::NavigateTo(section),
                ),
            );
            i += 1;
        }
        items.push(Node::gap_beside(20));
        items.push(
            Node::button(
                "🌙",
                20,
                Padding::all(8),
                StyleKind::ThemeToggleButton,
                InteractionFlags { is_active: false },
                Message::ToggleTheme,
            ),
        );
        let row = Node::row(items, 8, Alignment::Center);
        assert(row@->Row_children == navbar_items(self.current_section));
        Node::styled_box(row, StyleKind::Navbar, Padding::all(16))
    }

    /// The section on display, in a viewport that scrolls. Each section has a
    /// view of its own.
    pub fn current_section_view(&self) -> (node: Node)
        ensures
            node@ == current_section_tree(self.current_section),
    {
        let content = match self.current_section {
            Section::Home => self.home_view(),
            Section::About => self.about_view(),
            Section::Skills => self.skills_view(),
            Section::Projects => self.projects_view(),
            Section::Contact => self.contact_view(),
        };
        Node::scrollable(content, Length::Fill)
    }

    /// The home section: who this is, and two controls that lead on.
    pub fn home_view(&self) -> (node: Node)
        ensures
            node@ == home_tree(),
    {
        let actions = Node::row(
            vec![
                call_to_action("View Projects", StyleKind::PrimaryButton, Section::Projects),
                Node::gap_beside(16),
                call_to_action("Get In Touch", StyleKind::SecondaryButton, Section::Contact),
            ],
            0,
            Alignment::Start,
        );
        let ghost expected = home_tree()->Container_content->Column_children;
        assert(actions@->Row_children == expected[8]->Row_children);
        let hero = Node::column(
            vec![
                Node::text(OWNER_GLYPH, 80),
                Node::gap_below(20),
                Node::heading(OWNER_NAME, 48),
                Node::gap_below(10),
                Node::text(OWNER_ROLE, 24),
                Node::gap_below(20),
                Node::centered_text(OWNER_PITCH, 16),
                Node::gap_below(30),
                actions,
            ],
            0,
            Alignment::Center,
            SECTION_PADDING,
        );
        assert(hero@->Column_children == expected);
        Node::container(
            hero,
            Padding::none(),
            Length::Fill,
            Length::Shrink,
            true,
            true,
            Some(StyleKind::Hero),
        )
    }

    /// The about section: three paragraphs and four quick facts, in a card.
    pub fn about_view(&self) -> (node: Node)
        ensures
            node@ == about_tree(),
    {
        let body = Node::column(
            vec![
                Node::text(ABOUT_INTRODUCTION, 16),
                Node::gap_below(16),
                Node::text(ABOUT_JOURNEY, 16),
                Node::gap_below(16),
                Node::text(ABOUT_PASTIMES, 16),
                Node::gap_below(20),
                Node::heading("Quick Facts", 20),
                Node::gap_below(10),
                Node::text(FACT_SYSTEM, 14),
                Node::text(FACT_LANGUAGES, 14),
                Node::text(FACT_FOCUS, 14),
                Node::text(FACT_FUEL, 14),
            ],
            4,
            Alignment::Start,
            0,
        );
        let ghost expected = about_tree()->Container_content->Column_children[2];
        assert(body@->Column_children == expected->Container_content->Column_children);
        section_frame("About Me", 20, self.card(body))
    }

    /// A group of skills: its title and one bar per skill.
    fn skill_group(&self, title: &str, skills: &Vec<Skill>) -> (node: Node)
        requires
            forall|i: int| 0 <= i < skills@.len() ==> (#[trigger] skills@[i]).wf(),
            skills@.len() + 2 <= usize::MAX,
        ensures
            node@ == skill_group_tree(title@, skills@),
    {
        let mut items: Vec<Node> = Vec::new();
        items.push(Node::heading(title, 20));
        items.push(Node::gap_below(12));
        let mut i: usize = 0;
        while i < skills.len()
            invariant
                i <= skills@.len(),
                items@.len() == i + 2,
                items@[0]@ == Tree::heading(title@, 20),
                items@[1]@ == Tree::gap_below(12),
                forall|j: int| 0 <= j < skills@.len() ==> (#[trigger] skills@[j]).wf(),
                forall|j: int|
                    2 <= j < i + 2 ==> (#[trigger] items@[j])@ == skill_bar_tree(
                        skills@[j - 2].name@,
                        skills@[j - 2].level,
                    ),
            decreases skills@.len() - i,
        {
            let skill = skills[i];
            items.push(self.skill_bar(skill.name, skill.level));
            i += 1;
        }
        let node = Node::column(items, 8, Alignment::Start, 0);
        assert(node@->Column_children == skill_group_tree(title@, skills@)->Column_children);
        node
    }

    /// The skills section: the two groups of skills, each in a card, side by
    /// side.
    pub fn skills_view(&self) -> (node: Node)
        ensures
            node@ == skills_tree(),
    {
        let languages = programming_skills();
        let tools = technology_skills();
        let groups = Node::row(
            vec![
                self.card(self.skill_group("Programming Languages", &languages)),
                Node::gap_beside(20),
                self.card(self.skill_group("Technologies & Tools", &tools)),
            ],
            0,
            Alignment::Start,
        );
        let ghost expected = skills_tree()->Container_content->Column_children[2];
        assert(groups@->Row_children == expected->Row_children);
        section_frame("Skills & Technologies", 30, groups)
    }

    /// The projects section: one card per featured project.
    pub fn projects_view(&self) -> (node: Node)
        ensures
            node@ == projects_tree(),
    {
        let projects = featured_projects();
        let ghost views = project_views(projects@);
        let mut items: Vec<Node> = Vec::new();
        let mut i: usize = 0;
        while i < projects.len()
            invariant
                i <= projects@.len(),
                views == project_views(projects@),
                items@.len() == (if i == 0 {
                    0
                } else {
                    2 * i - 1
                }),
                forall|j: int|
                    0 <= j < items@.len() ==> (#[trigger] items@[j])@ == (if j % 2 == 0 {
                        project_tree(views[j / 2])
                    } else {
                        Tree::gap_below(20)
                    }),
            decreases projects@.len() - i,
        {
            if i > 0 {
                items.push(Node::gap_below(20));
            }
            let project = &projects[i];
            items.push(
                self.project_card(project.title, project.description, project.tags.as_slice()),
            );
            i += 1;
        }
        let list = Node::column(items, 0, Alignment::Start, 0);
        assert(list@->Column_children == project_list_items(featured_projects_spec()));
        section_frame("Featured Projects", 30, list)
    }

    /// The contact section: an invitation and one row per contact, in a card.
    pub fn contact_view(&self) -> (node: Node)
        ensures
            node@ == contact_tree(),
    {
        let entries = contacts();
        let mut rows: Vec<Node> = Vec::new();
        let mut i: usize = 0;
        while i < entries.len()
            invariant
                i <= entries@.len(),
                rows@.len() == i,
                forall|j: int|
                    0 <= j < i ==> (#[trigger] rows@[j])@ == contact_item_tree(
                        entries@[j].icon@,
                        entries@[j].text@,
                    ),
            decreases entries@.len() - i,
        {
            let entry = entries[i];
            rows.push(self.contact_item(entry.icon, entry.text));
            i += 1;
        }
        let list = Node::column(rows, 12, Alignment::Start, 0);
        assert(list@->Column_children == contact_list_items(contacts_spec()));
        let body = Node::column(
            vec![Node::centered_text(CONTACT_INVITATION, 18), Node::gap_below(30), list],
            0,
            Alignment::Center,
            0,
        );
        let ghost expected = contact_tree()->Container_content->Column_children[2];
        assert(body@->Column_children == expected->Container_content->Column_children);
        section_frame("Let's Connect", 30, self.card(body))
    }

    /// The whole window for this state.
    pub fn view(&self) -> (node: Node)
        ensures
            node@ == view_tree(*self),
    {
        let content = Node::column(
            vec![self.navbar(), Node::gap_below(20), self.current_section_view()],
            0,
            Alignment::Center,
            0,
        );
        assert(content@->Column_children == view_tree(*self)->Container_content->Column_children);
        Node::container(
            content,
            Padding::none(),
            Length::Fill,
            Length::Fill,
            false,
            false,
            None,
        )
    }
}

/// A button that is lit.
pub open spec fn is_active_button(tree: Tree) -> bool {
    tree matches Tree::Button { flags, .. } && flags.is_active
}

/// The navigation bar holds one button per section, in the navigation order,
/// each leading to its section; then some room and the theme toggle.
pub proof fn lemma_navbar_layout(current: Section)
    ensures
        navbar_items(current).len() == section_order().len() + 2,
        forall|i: int|
            0 <= i < section_order().len() ==> (#[trigger] navbar_items(current)[i])
                == nav_button_tree(section_order()[i], current),
        forall|section: Section|
            (#[trigger] navbar_items(current)[section.position()]) == nav_button_tree(
                section,
                current,
            ),
        navbar_items(current)[section_order().len() as int + 1] == theme_toggle_tree(),
        theme_toggle_tree()->on_press == Message::ToggleTheme,
{
    assert forall|section: Section|
        (#[trigger] navbar_items(current)[section.position()]) == nav_button_tree(
            section,
            current,
        ) by {
        lemma_section_order(section);
    }
}

/// Exactly one button of the navigation bar is lit: the one that leads to
/// the section on display.
pub proof fn lemma_navbar_one_active(current: Section)
    ensures
        is_active_button(navbar_items(current)[current.position()]),
        navbar_items(current)[current.position()]->on_press == Message::NavigateTo(current),
        forall|i: int|
            0 <= i < navbar_items(current).len() && i != current.position() ==> !is_active_button(
                #[trigger] navbar_items(current)[i],
            ),
{
    lemma_section_order(current);
    lemma_navbar_layout(current);
    assert forall|i: int|
        0 <= i < navbar_items(current).len() && i != current.position() implies !is_active_button(
        #[trigger] navbar_items(current)[i],
    ) by {
        if i < section_order().len() {
            assert(section_order()[i] != current);
        }
    }
}

/// The tree shows a section, not a theme: two states on the same section
/// have the same tree, whatever their themes.
pub proof fn lemma_view_ignores_theme(state: Portfolio, other: Portfolio)
    requires
        state.current_section == other.current_section,
    ensures
        view_tree(state) == view_tree(other),
{
}

/// The tree of a state holds the navigation bar of its section and, in the
/// viewport below it, the content of that section and of no other.
pub proof fn lemma_view_shows_current_section(state: Portfolio)
    ensures
        view_tree(state)->Container_content->Column_children.len() == 3,
        view_tree(state)->Container_content->Column_children[0] == navbar_tree(
            state.current_section,
        ),
        view_tree(state)->Container_content->Column_children[2] == (Tree::Scrollable {
            content: Box::new(section_tree(state.current_section)),
            height: Length::Fill,
        }),
{
}

/// After a navigation the window shows the section asked for, and the
/// navigation bar is lit there.
pub proof fn lemma_navigation_shows_section(state: Portfolio, section: Section)
    ensures
        view_tree(step(state, Message::NavigateTo(section)))->Container_content->Column_children[0]
            == navbar_tree(section),
        view_tree(step(state, Message::NavigateTo(section)))->Container_content->Column_children[2]
            == current_section_tree(section),
{
}

/// A theme switch leaves the tree as it is.
pub proof fn lemma_theme_switch_keeps_tree(state: Portfolio)
    ensures
        view_tree(step(state, Message::ToggleTheme)) == view_tree(state),
{
}

/// No two sections have the same content.
pub proof fn lemma_sections_differ(section: Section, other: Section)
    requires
        section != other,
    ensures
        section_tree(section) != section_tree(other),
        view_tree(Portfolio { current_section: section, theme: Theme::Dark }) != view_tree(
            Portfolio { current_section: other, theme: Theme::Dark },
        ),
{
    reveal_strlit("About Me");
    reveal_strlit("Skills & Technologies");
    reveal_strlit("Featured Projects");
    reveal_strlit("Let's Connect");
    let heading = |s: Section| section_tree(s)->Container_content->Column_children[0];
    assert(section_tree(Section::Home)->Container_style == Some(StyleKind::Hero));
    assert(heading(Section::About) == Tree::heading("About Me"@, SECTION_HEADING_SIZE));
    assert(heading(Section::Skills) == Tree::heading(
        "Skills & Technologies"@,
        SECTION_HEADING_SIZE,
    ));
    assert(heading(Section::Projects) == Tree::heading("Featured Projects"@, SECTION_HEADING_SIZE));
    assert(heading(Section::Contact) == Tree::heading("Let's Connect"@, SECTION_HEADING_SIZE));
    let window = |s: Section| view_tree(Portfolio { current_section: s, theme: Theme::Dark });
    assert(window(section)->Container_content->Column_children[2] == current_section_tree(section));
    assert(window(other)->Container_content->Column_children[2] == current_section_tree(other));
}

/// Builds the tree to display for `state`. Total, and free of side effects.
pub fn render(state: Portfolio) -> (node: Node)
    ensures
        node@ == view_tree(state),
{
    state.view()
}

} // verus!
