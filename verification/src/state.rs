//! The application state and the messages that change it.

use vstd::prelude::*;
use crate::content::WINDOW_TITLE;

verus! {

/// One of the five mutually exclusive content views.
#[derive(Clone, Copy, Debug, PartialEq, Eq, Structural)]
pub enum Section {
    Home,
    About,
    Skills,
    Projects,
    Contact,
}

/// The colour scheme in force.
#[derive(Clone, Copy, Debug, PartialEq, Eq, Structural)]
pub enum Theme {
    Light,
    Dark,
}

/// A user intent, consumed exactly once by [`update`].
#[derive(Clone, Copy, Debug, PartialEq, Eq, Structural)]
pub enum Message {
    NavigateTo(Section),
    ToggleTheme,
}

/// The single source of truth: the section on display and the theme.
#[derive(Clone, Copy, Debug, PartialEq, Eq, Structural)]
pub struct Portfolio {
    pub current_section: Section,
    pub theme: Theme,
}

/// The sections in the order in which the navigation bar shows them.
pub open spec fn section_order() -> Seq<Section> {
    seq![Section::Home, Section::About, Section::Skills, Section::Projects, Section::Contact]
}

impl Section {
    /// The place of this section in [`section_order`].
    pub open spec fn position(self) -> int {
        match self {
            Section::Home => 0,
            Section::About => 1,
            Section::Skills => 2,
            Section::Projects => 3,
            Section::Contact => 4,
        }
    }

    /// The text on the navigation button of this section.
    pub open spec fn label_text(self) -> Seq<char> {
        match self {
            Section::Home => "🏠 Home"@,
            Section::About => "👤 About"@,
            Section::Skills => "⚡ Skills"@,
            Section::Projects => "💼 Projects"@,
            Section::Contact => "📞 Contact"@,
        }
    }

    /// The text on the navigation button of this section.
    pub fn label(self) -> (text: &'static str)
        ensures
            text@ == self.label_text(),
    {
        match self {
            Section::Home => "🏠 Home",
            Section::About => "👤 About",
            Section::Skills => "⚡ Skills",
            Section::Projects => "💼 Projects",
            Section::Contact => "📞 Contact",
        }
    }
}

/// All sections, in the order in which the navigation bar shows them.
pub fn sections() -> (all: Vec<Section>)
    ensures
        all@ == section_order(),
{
    vec![Section::Home, Section::About, Section::Skills, Section::Projects, Section::Contact]
}

impl Theme {
    /// The theme that a theme switch leaves behind: `Light` gives `Dark`, and
    /// `Dark` stays `Dark`. A switch is no two-cycle: it settles on the dark
    /// theme.
    pub open spec fn switched(self) -> Theme {
        match self {
            Theme::Light => Theme::Dark,
            Theme::Dark => Theme::Dark,
        }
    }
}

/// The state that follows `state` once `message` has been applied.
pub open spec fn step(state: Portfolio, message: Message) -> Portfolio {
    match message {
        Message::NavigateTo(section) => Portfolio { current_section: section, theme: state.theme },
        Message::ToggleTheme => Portfolio {
            current_section: state.current_section,
            theme: state.theme.switched(),
        },
    }
}

/// Applies one message to a state. Total and free of side effects.
pub fn update(state: Portfolio, message: Message) -> (next: Portfolio)
    ensures
        next == step(state, message),
        message matches Message::NavigateTo(section) ==> next.current_section == section
            && next.theme == state.theme,
        message is ToggleTheme ==> next.current_section == state.current_section && next.theme
            == Theme::Dark,
{
    match message {
        Message::NavigateTo(section) => Portfolio { current_section: section, theme: state.theme },
        Message::ToggleTheme => {
            let theme = match state.theme {
                Theme::Light => Theme::Dark,
                Theme::Dark => Theme::Dark,
            };
            Portfolio { current_section: state.current_section, theme }
        },
    }
}

impl Portfolio {
    /// The state at startup.
    pub open spec fn initial() -> Portfolio {
        Portfolio { current_section: Section::Home, theme: Theme::Dark }
    }

    /// The state at startup: the home section under the dark theme.
    pub fn new() -> (state: Portfolio)
        ensures
            state == Self::initial(),
    {
        Portfolio { current_section: Section::Home, theme: Theme::Dark }
    }

    /// The title of the window.
    pub fn title(&self) -> (title: String)
        ensures
            title@ == WINDOW_TITLE@,
    {
        WINDOW_TITLE.to_owned()
    }

    /// Applies one message to this state, in place.
    pub fn update(&mut self, message: Message)
        ensures
            *final(self) == step(*old(self), message),
    {
        let next = update(*self, message);
        *self = next;
    }

    /// The theme in force.
    pub fn theme(&self) -> (theme: Theme)
        ensures
            theme == self.theme,
    {
        self.theme
    }
}

/// The state reached from `state` once `messages` have been applied, first
/// to last.
pub open spec fn run(state: Portfolio, messages: Seq<Message>) -> Portfolio
    decreases messages.len(),
{
    if messages.len() == 0 {
        state
    } else {
        step(run(state, messages.drop_last()), messages.last())
    }
}

/// The states that the application can be in: those reached from the state
/// at startup by some run of messages.
pub open spec fn reachable(state: Portfolio) -> bool {
    exists|messages: Seq<Message>| run(Portfolio::initial(), messages) == state
}

/// Every section stands in the navigation order, once, at its position.
pub proof fn lemma_section_order(section: Section)
    ensures
        section_order().len() == 5,
        0 <= section.position() < 5,
        section_order()[section.position()] == section,
        forall|i: int| 0 <= i < 5 && section_order()[i] == section ==> i == section.position(),
{
}

/// In every reachable state the section is one of the five sections and the
/// theme is one of the two themes.
pub proof fn lemma_reachable_closed(state: Portfolio)
    requires
        reachable(state),
    ensures
        section_order().contains(state.current_section),
        state.theme == Theme::Light || state.theme == Theme::Dark,
{
    lemma_section_order(state.current_section);
    assert(section_order()[state.current_section.position()] == state.current_section);
}

/// Navigation shows the section asked for and keeps the theme.
pub proof fn lemma_navigate(state: Portfolio, section: Section)
    ensures
        step(state, Message::NavigateTo(section)).current_section == section,
        step(state, Message::NavigateTo(section)).theme == state.theme,
{
}

/// A theme switch keeps the section and gives the dark theme: from `Light`,
/// and from `Dark` as well.
pub proof fn lemma_toggle(state: Portfolio)
    ensures
        step(state, Message::ToggleTheme).current_section == state.current_section,
        state.theme == Theme::Light ==> step(state, Message::ToggleTheme).theme == Theme::Dark,
        state.theme != Theme::Light ==> step(state, Message::ToggleTheme).theme == Theme::Dark,
{
}

} // verus!
