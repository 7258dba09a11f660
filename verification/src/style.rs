//! The style table: what each kind of widget looks like under each theme.
//!
//! Colours are held as whole hundredths, so that the table is exact: a
//! channel of 20 is one fifth of full intensity, an alpha of 50 is half
//! opaque. Lengths are whole layout units.

use vstd::prelude::*;
use crate::state::Theme;

verus! {

/// A colour with its opacity, each channel in hundredths (0 to 100).
#[derive(Clone, Copy, Debug, PartialEq, Eq, Structural)]
pub struct Color {
    pub red: u8,
    pub green: u8,
    pub blue: u8,
    pub alpha: u8,
}

impl Color {
    /// No channel exceeds full intensity.
    pub open spec fn wf(self) -> bool {
        self.red <= 100 && self.green <= 100 && self.blue <= 100 && self.alpha <= 100
    }

    pub open spec fn spec_accent() -> Color {
        Color { red: 20, green: 60, blue: 100, alpha: 100 }
    }

    pub open spec fn spec_white() -> Color {
        Color { red: 100, green: 100, blue: 100, alpha: 100 }
    }

    pub open spec fn spec_black() -> Color {
        Color { red: 0, green: 0, blue: 0, alpha: 100 }
    }

    pub open spec fn spec_transparent() -> Color {
        Color { red: 0, green: 0, blue: 0, alpha: 0 }
    }

    /// The same hue at another opacity.
    pub open spec fn spec_with_alpha(self, alpha: u8) -> Color {
        Color { red: self.red, green: self.green, blue: self.blue, alpha }
    }

    /// A grey of the given lightness and opacity.
    pub open spec fn spec_grey(level: u8, alpha: u8) -> Color {
        Color { red: level, green: level, blue: level, alpha }
    }

    /// The accent colour of the application, fully opaque.
    #[verifier::when_used_as_spec(spec_accent)]
    pub fn accent() -> (c: Color)
        ensures
            c == Self::spec_accent(),
    {
        Color { red: 20, green: 60, blue: 100, alpha: 100 }
    }

    #[verifier::when_used_as_spec(spec_white)]
    pub fn white() -> (c: Color)
        ensures
            c == Self::spec_white(),
    {
        Color { red: 100, green: 100, blue: 100, alpha: 100 }
    }

    #[verifier::when_used_as_spec(spec_black)]
    pub fn black() -> (c: Color)
        ensures
            c == Self::spec_black(),
    {
        Color { red: 0, green: 0, blue: 0, alpha: 100 }
    }

    #[verifier::when_used_as_spec(spec_transparent)]
    pub fn transparent() -> (c: Color)
        ensures
            c == Self::spec_transparent(),
    {
        Color { red: 0, green: 0, blue: 0, alpha: 0 }
    }

    #[verifier::when_used_as_spec(spec_with_alpha)]
    pub fn with_alpha(self, alpha: u8) -> (c: Color)
        ensures
            c == self.spec_with_alpha(alpha),
    {
        Color { red: self.red, green: self.green, blue: self.blue, alpha }
    }

    #[verifier::when_used_as_spec(spec_grey)]
    pub fn grey(level: u8, alpha: u8) -> (c: Color)
        ensures
            c == Self::spec_grey(level, alpha),
    {
        Color { red: level, green: level, blue: level, alpha }
    }
}

/// The visual variants that the style table knows.
#[derive(Clone, Copy, Debug, PartialEq, Eq, Structural)]
pub enum StyleKind {
    NavButton,
    PrimaryButton,
    SecondaryButton,
    ThemeToggleButton,
    Card,
    Navbar,
    Hero,
    TechPill,
    ProgressTrack,
    ProgressFill,
}

/// What a widget instance adds to its kind when its appearance is looked up.
#[derive(Clone, Copy, Debug, PartialEq, Eq, Structural)]
pub struct InteractionFlags {
    /// Set on the navigation button of the section on display.
    pub is_active: bool,
}

/// The concrete visual attributes of one widget instance. Derived on every
/// render, never stored.
#[derive(Clone, Copy, Debug, PartialEq, Eq, Structural)]
pub struct Appearance {
    pub background_color: Color,
    /// `None` where the kind leaves the text colour to its surroundings.
    pub text_color: Option<Color>,
    pub border_radius: u16,
    pub border_width: u16,
    pub border_color: Color,
}

impl StyleKind {
    /// The kinds that are drawn as buttons; the others are containers.
    pub open spec fn is_button(self) -> bool {
        self is NavButton || self is PrimaryButton || self is SecondaryButton
            || self is ThemeToggleButton
    }

    /// The kinds whose appearance is one of two variants keyed by the theme.
    pub open spec fn is_theme_dependent(self) -> bool {
        self is NavButton || self is Card || self is Navbar || self is Hero
            || self is ProgressTrack
    }
}

/// The fill of a widget.
pub open spec fn background_of(kind: StyleKind, theme: Theme, flags: InteractionFlags) -> Color {
    let dark = theme is Dark;
    match kind {
        StyleKind::NavButton => if flags.is_active {
            Color::accent()
        } else {
            Color::transparent()
        },
        StyleKind::PrimaryButton | StyleKind::ProgressFill => Color::accent(),
        StyleKind::SecondaryButton | StyleKind::TechPill => Color::accent().with_alpha(20),
        StyleKind::ThemeToggleButton => Color::grey(10, 100),
        StyleKind::Card => if dark {
            Color::grey(10, 50)
        } else {
            Color::grey(100, 80)
        },
        StyleKind::Navbar => if dark {
            Color::grey(10, 90)
        } else {
            Color::grey(95, 90)
        },
        StyleKind::Hero => if dark {
            Color { red: 5, green: 15, blue: 25, alpha: 30 }
        } else {
            Color { red: 90, green: 95, blue: 100, alpha: 50 }
        },
        StyleKind::ProgressTrack => if dark {
            Color::grey(30, 50)
        } else {
            Color::grey(80, 50)
        },
    }
}

/// The colour of a button's label; containers set none.
pub open spec fn text_color_of(kind: StyleKind, theme: Theme, flags: InteractionFlags) -> Option<
    Color,
> {
    match kind {
        StyleKind::NavButton => if flags.is_active || theme is Dark {
            Some(Color::white())
        } else {
            Some(Color::black())
        },
        StyleKind::PrimaryButton | StyleKind::ThemeToggleButton => Some(Color::white()),
        StyleKind::SecondaryButton => Some(Color::accent()),
        _ => None,
    }
}

/// The rounding of a widget's corners.
pub open spec fn border_radius_of(kind: StyleKind) -> u16 {
    match kind {
        StyleKind::NavButton | StyleKind::PrimaryButton | StyleKind::SecondaryButton => 8,
        StyleKind::ThemeToggleButton | StyleKind::Hero => 20,
        StyleKind::Card | StyleKind::Navbar => 16,
        StyleKind::TechPill => 12,
        StyleKind::ProgressTrack | StyleKind::ProgressFill => 4,
    }
}

/// The outline of a widget: its width, and its colour where it has one.
pub open spec fn border_of(kind: StyleKind) -> (u16, Color) {
    match kind {
        StyleKind::SecondaryButton | StyleKind::TechPill => (1, Color::accent()),
        StyleKind::Card => (1, Color::grey(50, 20)),
        StyleKind::Navbar => (1, Color::grey(50, 30)),
        StyleKind::Hero => (1, Color::accent().with_alpha(30)),
        _ => (0, Color::transparent()),
    }
}

/// The appearance of a widget of kind `kind` under `theme`, with `flags`.
pub open spec fn appearance_of(kind: StyleKind, theme: Theme, flags: InteractionFlags) -> Appearance {
    Appearance {
        background_color: background_of(kind, theme, flags),
        text_color: text_color_of(kind, theme, flags),
        border_radius: border_radius_of(kind),
        border_width: border_of(kind).0,
        border_color: border_of(kind).1,
    }
}

/// A button that fills with `background` and writes in `text_color`, with no
/// outline.
fn plain_button(background: Color, text_color: Color, border_radius: u16) -> (a: Appearance)
    ensures
        a == (Appearance {
            background_color: background,
            text_color: Some(text_color),
            border_radius,
            border_width: 0,
            border_color: Color::transparent(),
        }),
{
    Appearance {
        background_color: background,
        text_color: Some(text_color),
        border_radius,
        border_width: 0,
        border_color: Color::transparent(),
    }
}

/// A container that fills with `background` inside an outline one unit wide.
fn outlined_container(background: Color, border_radius: u16, border_color: Color) -> (a: Appearance)
    ensures
        a == (Appearance {
            background_color: background,
            text_color: None,
            border_radius,
            border_width: 1,
            border_color,
        }),
{
    Appearance {
        background_color: background,
        text_color: None,
        border_radius,
        border_width: 1,
        border_color,
    }
}

/// One layer of a progress indicator: a fill with slightly rounded corners.
fn progress_layer(background: Color) -> (a: Appearance)
    ensures
        a == (Appearance {
            background_color: background,
            text_color: None,
            border_radius: 4,
            border_width: 0,
            border_color: Color::transparent(),
        }),
{
    Appearance {
        background_color: background,
        text_color: None,
        border_radius: 4,
        border_width: 0,
        border_color: Color::transparent(),
    }
}

/// Looks up the appearance of a widget. The result depends on the three
/// arguments and on nothing else.
pub fn resolve(kind: StyleKind, theme: Theme, flags: InteractionFlags) -> (a: Appearance)
    ensures
        a == appearance_of(kind, theme, flags),
{
    match kind {
        StyleKind::NavButton => {
            if flags.is_active {
                plain_button(Color::accent(), Color::white(), 8)
            } else {
                let text_color = match theme {
                    Theme::Dark => Color::white(),
                    Theme::Light => Color::black(),
                };
                plain_button(Color::transparent(), text_color, 8)
            }
        },
        StyleKind::PrimaryButton => plain_button(Color::accent(), Color::white(), 8),
        StyleKind::SecondaryButton => Appearance {
            background_color: Color::accent().with_alpha(20),
            text_color: Some(Color::accent()),
            border_radius: 8,
            border_width: 1,
            border_color: Color::accent(),
        },
        StyleKind::ThemeToggleButton => plain_button(Color::grey(10, 100), Color::white(), 20),
        StyleKind::Card => {
            let background = match theme {
                Theme::Dark => Color::grey(10, 50),
                Theme::Light => Color::grey(100, 80),
            };
            outlined_container(background, 16, Color::grey(50, 20))
        },
        StyleKind::Navbar => {
            let background = match theme {
                Theme::Dark => Color::grey(10, 90),
                Theme::Light => Color::grey(95, 90),
            };
            outlined_container(background, 16, Color::grey(50, 30))
        },
        StyleKind::Hero => {
            let background = match theme {
                Theme::Dark => Color { red: 5, green: 15, blue: 25, alpha: 30 },
                Theme::Light => Color { red: 90, green: 95, blue: 100, alpha: 50 },
            };
            outlined_container(background, 20, Color::accent().with_alpha(30))
        },
        StyleKind::TechPill => outlined_container(
            Color::accent().with_alpha(20),
            12,
            Color::accent(),
        ),
        StyleKind::ProgressTrack => {
            let background = match theme {
                Theme::Dark => Color::grey(30, 50),
                Theme::Light => Color::grey(80, 50),
            };
            progress_layer(background)
        },
        StyleKind::ProgressFill => progress_layer(Color::accent()),
    }
}

/// Looking an appearance up twice with equal arguments gives equal results.
pub proof fn lemma_resolve_is_a_function(
    kind: StyleKind,
    theme: Theme,
    flags: InteractionFlags,
    other_kind: StyleKind,
    other_theme: Theme,
    other_flags: InteractionFlags,
)
    requires
        kind == other_kind,
        theme == other_theme,
        flags == other_flags,
    ensures
        appearance_of(kind, theme, flags) == appearance_of(other_kind, other_theme, other_flags),
{
}

/// A kind that is not theme dependent looks the same under both themes, and
/// so does the navigation button of the section on display.
pub proof fn lemma_theme_independent(kind: StyleKind, flags: InteractionFlags)
    requires
        !kind.is_theme_dependent() || (kind is NavButton && flags.is_active),
    ensures
        appearance_of(kind, Theme::Light, flags) == appearance_of(kind, Theme::Dark, flags),
{
}

/// A theme dependent kind has two distinct variants, one per theme: the
/// themes differ in the label of an inactive navigation button, and in the
/// fill of the other kinds.
pub proof fn lemma_theme_dependent(kind: StyleKind, flags: InteractionFlags)
    requires
        kind.is_theme_dependent(),
        kind is NavButton ==> !flags.is_active,
    ensures
        appearance_of(kind, Theme::Light, flags) != appearance_of(kind, Theme::Dark, flags),
        kind is NavButton ==> text_color_of(kind, Theme::Light, flags) != text_color_of(
            kind,
            Theme::Dark,
            flags,
        ),
        !(kind is NavButton) ==> background_of(kind, Theme::Light, flags) != background_of(
            kind,
            Theme::Dark,
            flags,
        ),
{
}

/// Only the navigation button reads the flags.
pub proof fn lemma_flags_only_on_nav_button(
    kind: StyleKind,
    theme: Theme,
    flags: InteractionFlags,
    other_flags: InteractionFlags,
)
    requires
        !(kind is NavButton),
    ensures
        appearance_of(kind, theme, flags) == appearance_of(kind, theme, other_flags),
{
}

/// The active navigation button is a solid accent fill with a white label;
/// the inactive one has no fill.
pub proof fn lemma_nav_button_states(theme: Theme)
    ensures
        appearance_of(StyleKind::NavButton, theme, InteractionFlags { is_active: true })
            .background_color == Color::accent(),
        appearance_of(StyleKind::NavButton, theme, InteractionFlags { is_active: true }).text_color
            == Some(Color::white()),
        appearance_of(StyleKind::NavButton, theme, InteractionFlags { is_active: false })
            .background_color.alpha == 0,
{
}

/// Every colour of the table is well formed, buttons and only buttons set a
/// text colour, and an outline that has a width has a colour that shows.
pub proof fn lemma_appearance_wf(kind: StyleKind, theme: Theme, flags: InteractionFlags)
    ensures
        appearance_of(kind, theme, flags).background_color.wf(),
        appearance_of(kind, theme, flags).border_color.wf(),
        appearance_of(kind, theme, flags).text_color matches Some(c) ==> c.wf(),
        appearance_of(kind, theme, flags).text_color is Some <==> kind.is_button(),
        appearance_of(kind, theme, flags).border_width <= 1,
        appearance_of(kind, theme, flags).border_width == 0 <==> appearance_of(
            kind,
            theme,
            flags,
        ).border_color.alpha == 0,
{
}

} // verus!
