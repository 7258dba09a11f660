use portfolio::sections::render;
use portfolio::state::{sections, update, Message, Portfolio, Section, Theme};
use portfolio::style::{resolve, Color, InteractionFlags, StyleKind};
use portfolio::tree::{Alignment, Length, Node, Padding};

struct ButtonSeen {
    label: String,
    style: StyleKind,
    is_active: bool,
    on_press: Message,
}

fn state_on(current_section: Section, theme: Theme) -> Portfolio {
    Portfolio { current_section, theme }
}

fn collect_texts(node: &Node, texts: &mut Vec<String>) {
    match node {
        Node::Text { content, .. } => texts.push(content.clone()),
        Node::Space { .. } | Node::Button { .. } => {}
        Node::Row { children, .. } | Node::Column { children, .. } => {
            for child in children {
                collect_texts(child, texts);
            }
        }
        Node::Container { content, .. } | Node::Scrollable { content, .. } => {
            collect_texts(content, texts)
        }
    }
}

fn collect_buttons(node: &Node, buttons: &mut Vec<ButtonSeen>) {
    match node {
        Node::Button { label, style, flags, on_press, .. } => buttons.push(ButtonSeen {
            label: label.clone(),
            style: *style,
            is_active: flags.is_active,
            on_press: *on_press,
        }),
        Node::Text { .. } | Node::Space { .. } => {}
        Node::Row { children, .. } | Node::Column { children, .. } => {
            for child in children {
                collect_buttons(child, buttons);
            }
        }
        Node::Container { content, .. } | Node::Scrollable { content, .. } => {
            collect_buttons(content, buttons)
        }
    }
}

fn collect_styled(node: &Node, wanted: StyleKind, found: &mut Vec<Node>) {
    match node {
        Node::Text { .. } | Node::Space { .. } | Node::Button { .. } => {}
        Node::Row { children, .. } | Node::Column { children, .. } => {
            for child in children {
                collect_styled(child, wanted, found);
            }
        }
        Node::Container { content, style, .. } => {
            if *style == Some(wanted) {
                found.push(render_copy(node));
            }
            collect_styled(content, wanted, found);
        }
        Node::Scrollable { content, .. } => collect_styled(content, wanted, found),
    }
}

fn render_copy(node: &Node) -> Node {
    match node {
        Node::Text { content, size, color, centered } => Node::Text {
            content: content.clone(),
            size: *size,
            color: *color,
            centered: *centered,
        },
        Node::Space { width, height } => Node::Space { width: *width, height: *height },
        Node::Button { label, label_size, padding, style, flags, on_press } => Node::Button {
            label: label.clone(),
            label_size: *label_size,
            padding: *padding,
            style: *style,
            flags: *flags,
            on_press: *on_press,
        },
        Node::Row { children, spacing, align } => Node::Row {
            children: children.iter().map(render_copy).collect(),
            spacing: *spacing,
            align: *align,
        },
        Node::Column { children, spacing, align, padding } => Node::Column {
            children: children.iter().map(render_copy).collect(),
            spacing: *spacing,
            align: *align,
            padding: *padding,
        },
        Node::Container { content, padding, width, height, center_x, center_y, style } => {
            Node::Container {
                content: Box::new(render_copy(content)),
                padding: *padding,
                width: *width,
                height: *height,
                center_x: *center_x,
                center_y: *center_y,
                style: *style,
            }
        }
        Node::Scrollable { content, height } => {
            Node::Scrollable { content: Box::new(render_copy(content)), height: *height }
        }
    }
}

fn texts_in(node: &Node) -> Vec<String> {
    let mut texts = Vec::new();
    collect_texts(node, &mut texts);
    texts
}

fn buttons_in(node: &Node) -> Vec<ButtonSeen> {
    let mut buttons = Vec::new();
    collect_buttons(node, &mut buttons);
    buttons
}

fn styled_in(node: &Node, wanted: StyleKind) -> Vec<Node> {
    let mut found = Vec::new();
    collect_styled(node, wanted, &mut found);
    found
}

fn fill_widths_in(node: &Node) -> Vec<u16> {
    styled_in(node, StyleKind::ProgressFill)
        .into_iter()
        .map(|fill| match fill {
            Node::Container { content, .. } => match *content {
                Node::Space { width: Length::Fixed(width), .. } => width,
                _ => panic!("the fill of a progress indicator holds room of a fixed width"),
            },
            _ => panic!("the fill of a progress indicator is a container"),
        })
        .collect()
}

#[test]
fn navbar_has_one_button_per_section_and_the_theme_toggle() {
    let navbar = state_on(Section::Home, Theme::Dark).navbar();
    let Node::Container { content, padding, width, height, style, .. } = navbar else {
        panic!("the navigation bar is a container");
    };
    assert_eq!(padding, Padding { vertical: 16, horizontal: 16 });
    assert_eq!(width, Length::Shrink);
    assert_eq!(height, Length::Shrink);
    assert_eq!(style, Some(StyleKind::Navbar));
    let Node::Row { children, spacing, align } = *content else {
        panic!("the navigation bar holds a row");
    };
    assert_eq!(spacing, 8);
    assert_eq!(align, Alignment::Center);
    assert_eq!(children.len(), 7);
    let order = sections();
    for (index, section) in order.iter().enumerate() {
        assert_eq!(
            children[index],
            Node::Button {
                label: section.label().to_string(),
                label_size: 16,
                padding: Padding { vertical: 8, horizontal: 16 },
                style: StyleKind::NavButton,
                flags: InteractionFlags { is_active: *section == Section::Home },
                on_press: Message::NavigateTo(*section),
            }
        );
    }
    assert_eq!(children[5], Node::Space { width: Length::Fixed(20), height: Length::Shrink });
    assert_eq!(
        children[6],
        Node::Button {
            label: "\u{1F319}".to_string(),
            label_size: 20,
            padding: Padding { vertical: 8, horizontal: 8 },
            style: StyleKind::ThemeToggleButton,
            flags: InteractionFlags { is_active: false },
            on_press: Message::ToggleTheme,
        }
    );
}

#[test]
fn exactly_one_navbar_button_is_active() {
    for theme in [Theme::Light, Theme::Dark] {
        for current in sections() {
            let buttons = buttons_in(&state_on(current, theme).navbar());
            let active: Vec<&ButtonSeen> =
                buttons.iter().filter(|button| button.is_active).collect();
            assert_eq!(active.len(), 1);
            assert_eq!(active[0].style, StyleKind::NavButton);
            assert_eq!(active[0].on_press, Message::NavigateTo(current));
            assert_eq!(active[0].label, current.label());
        }
    }
}

#[test]
fn navbar_buttons_lead_to_their_sections() {
    let buttons = buttons_in(&Portfolio::new().navbar());
    let targets: Vec<Message> = buttons.iter().map(|button| button.on_press).collect();
    assert_eq!(
        targets,
        vec![
            Message::NavigateTo(Section::Home),
            Message::NavigateTo(Section::About),
            Message::NavigateTo(Section::Skills),
            Message::NavigateTo(Section::Projects),
            Message::NavigateTo(Section::Contact),
            Message::ToggleTheme,
        ]
    );
}

#[test]
fn view_frames_the_navbar_and_the_section() {
    for current in sections() {
        let state = state_on(current, Theme::Dark);
        let expected = Node::Container {
            content: Box::new(Node::Column {
                children: vec![
                    state.navbar(),
                    Node::Space { width: Length::Shrink, height: Length::Fixed(20) },
                    state.current_section_view(),
                ],
                spacing: 0,
                align: Alignment::Center,
                padding: 0,
            }),
            padding: Padding { vertical: 0, horizontal: 0 },
            width: Length::Fill,
            height: Length::Fill,
            center_x: false,
            center_y: false,
            style: None,
        };
        assert_eq!(state.view(), expected);
        assert_eq!(render(state), expected);
    }
}

#[test]
fn current_section_view_scrolls_over_the_section_on_display() {
    let state = Portfolio::new();
    let views = [
        (Section::Home, state.home_view()),
        (Section::About, state.about_view()),
        (Section::Skills, state.skills_view()),
        (Section::Projects, state.projects_view()),
        (Section::Contact, state.contact_view()),
    ];
    for (section, view) in views {
        assert_eq!(
            state_on(section, Theme::Light).current_section_view(),
            Node::Scrollable { content: Box::new(view), height: Length::Fill }
        );
    }
}

#[test]
fn sections_differ_from_each_other() {
    let trees: Vec<Node> =
        sections().into_iter().map(|section| render(state_on(section, Theme::Dark))).collect();
    for first in 0..trees.len() {
        for second in 0..trees.len() {
            assert_eq!(trees[first] == trees[second], first == second);
        }
    }
}

#[test]
fn the_tree_does_not_depend_on_the_theme() {
    for section in sections() {
        assert_eq!(render(state_on(section, Theme::Light)), render(state_on(section, Theme::Dark)));
    }
}

#[test]
fn render_twice_gives_the_same_tree() {
    let state = state_on(Section::Skills, Theme::Dark);
    assert_eq!(render(state), render(state));
}

#[test]
fn home_view_introduces_the_owner() {
    let home = Portfolio::new().home_view();
    let Node::Container { width, height, center_x, center_y, style, .. } = &home else {
        panic!("the home section is a container");
    };
    assert_eq!(*width, Length::Fill);
    assert_eq!(*height, Length::Shrink);
    assert!(*center_x);
    assert!(*center_y);
    assert_eq!(*style, Some(StyleKind::Hero));
    assert_eq!(
        texts_in(&home),
        vec![
            "\u{1F468}\u{200D}\u{1F4BB}",
            "John Developer",
            "Full-Stack Developer & Linux Enthusiast",
            "Building awesome applications with modern technologies\nArch Linux \u{2022} Hyprland \u{2022} Rust \u{2022} Python \u{2022} Web Development",
        ]
    );
}

#[test]
fn home_view_leads_to_projects_and_contact() {
    let buttons = buttons_in(&Portfolio::new().home_view());
    assert_eq!(buttons.len(), 2);
    assert_eq!(buttons[0].label, "View Projects");
    assert_eq!(buttons[0].style, StyleKind::PrimaryButton);
    assert_eq!(buttons[0].on_press, Message::NavigateTo(Section::Projects));
    assert_eq!(buttons[1].label, "Get In Touch");
    assert_eq!(buttons[1].style, StyleKind::SecondaryButton);
    assert_eq!(buttons[1].on_press, Message::NavigateTo(Section::Contact));
    assert!(!buttons[0].is_active);
    assert!(!buttons[1].is_active);
}

#[test]
fn home_view_layout() {
    let Node::Container { content, .. } = Portfolio::new().home_view() else {
        panic!("the home section is a container");
    };
    let Node::Column { children, spacing, align, padding } = *content else {
        panic!("the home section holds a column");
    };
    assert_eq!(spacing, 0);
    assert_eq!(align, Alignment::Center);
    assert_eq!(padding, 40);
    assert_eq!(children.len(), 9);
    assert_eq!(
        children[0],
        Node::Text {
            content: "\u{1F468}\u{200D}\u{1F4BB}".to_string(),
            size: 80,
            color: None,
            centered: false
        }
    );
    assert_eq!(children[1], Node::Space { width: Length::Shrink, height: Length::Fixed(20) });
    assert_eq!(
        children[2],
        Node::Text {
            content: "John Developer".to_string(),
            size: 48,
            color: Some(Color { red: 20, green: 60, blue: 100, alpha: 100 }),
            centered: false
        }
    );
    assert_eq!(children[3], Node::Space { width: Length::Shrink, height: Length::Fixed(10) });
    assert_eq!(children[5], Node::Space { width: Length::Shrink, height: Length::Fixed(20) });
    let Node::Text { size, centered, .. } = &children[6] else {
        panic!("the pitch is text");
    };
    assert_eq!(*size, 16);
    assert!(*centered);
    assert_eq!(children[7], Node::Space { width: Length::Shrink, height: Length::Fixed(30) });
    let Node::Row { children: actions, spacing, align } = &children[8] else {
        panic!("the controls of the home section stand in a row");
    };
    assert_eq!(*spacing, 0);
    assert_eq!(*align, Alignment::Start);
    assert_eq!(actions.len(), 3);
    assert_eq!(actions[1], Node::Space { width: Length::Fixed(16), height: Length::Shrink });
    let Node::Button { label_size, padding, .. } = &actions[0] else {
        panic!("the first control is a button");
    };
    assert_eq!(*label_size, 16);
    assert_eq!(*padding, Padding { vertical: 12, horizontal: 24 });
}

#[test]
fn about_view_tells_the_story_and_the_quick_facts() {
    let about = Portfolio::new().about_view();
    let texts = texts_in(&about);
    assert_eq!(texts.len(), 9);
    assert_eq!(texts[0], "About Me");
    assert!(texts[1].starts_with("I'm a passionate developer"));
    assert!(texts[2].starts_with("My journey into programming"));
    assert!(texts[3].starts_with("When I'm not coding"));
    assert_eq!(texts[4], "Quick Facts");
    assert_eq!(texts[5], "\u{1F427} Daily driver: Arch Linux + Hyprland");
    assert_eq!(texts[6], "\u{2328}\u{FE0F} Favorite languages: Rust, Python, JavaScript");
    assert_eq!(texts[7], "\u{1F3AF} Focus: Desktop apps & web development");
    assert_eq!(texts[8], "\u{2615} Fuel: Coffee and open-source software");
    assert_eq!(styled_in(&about, StyleKind::Card).len(), 1);
    assert!(buttons_in(&about).is_empty());
}

#[test]
fn about_view_layout() {
    let Node::Container { content, width, style, .. } = Portfolio::new().about_view() else {
        panic!("the about section is a container");
    };
    assert_eq!(width, Length::Fill);
    assert_eq!(style, None);
    let Node::Column { children, spacing, align, padding } = *content else {
        panic!("the about section holds a column");
    };
    assert_eq!((spacing, align, padding), (0, Alignment::Center, 40));
    assert_eq!(children.len(), 3);
    assert_eq!(
        children[0],
        Node::Text {
            content: "About Me".to_string(),
            size: 36,
            color: Some(Color::accent()),
            centered: false
        }
    );
    assert_eq!(children[1], Node::Space { width: Length::Shrink, height: Length::Fixed(20) });
    let Node::Container { content: card_content, padding, style, .. } = &children[2] else {
        panic!("the body of the about section is a card");
    };
    assert_eq!(*padding, Padding { vertical: 24, horizontal: 24 });
    assert_eq!(*style, Some(StyleKind::Card));
    let Node::Column { children: lines, spacing, .. } = &**card_content else {
        panic!("the card holds a column");
    };
    assert_eq!(*spacing, 4);
    assert_eq!(lines.len(), 12);
    assert_eq!(lines[1], Node::Space { width: Length::Shrink, height: Length::Fixed(16) });
    assert_eq!(lines[5], Node::Space { width: Length::Shrink, height: Length::Fixed(20) });
    assert_eq!(lines[7], Node::Space { width: Length::Shrink, height: Length::Fixed(10) });
}

#[test]
fn skills_view_shows_each_skill_with_its_bar() {
    let state = Portfolio::new();
    let skills = state.skills_view();
    assert_eq!(
        texts_in(&skills),
        vec![
            "Skills & Technologies",
            "Programming Languages",
            "Rust",
            "85%",
            "Python",
            "90%",
            "JavaScript",
            "80%",
            "C++",
            "70%",
            "Technologies & Tools",
            "Iced/GUI",
            "80%",
            "Web Dev",
            "85%",
            "Linux/Bash",
            "95%",
            "Git",
            "90%",
        ]
    );
    assert_eq!(fill_widths_in(&skills), vec![255, 270, 240, 210, 240, 255, 285, 270]);
    assert_eq!(styled_in(&skills, StyleKind::Card).len(), 2);
    let tracks = styled_in(&skills, StyleKind::ProgressTrack);
    assert_eq!(tracks.len(), 8);
    for track in tracks {
        let Node::Container { width, height, .. } = track else {
            panic!("a track is a container");
        };
        assert_eq!(width, Length::Fixed(300));
        assert_eq!(height, Length::Fixed(8));
    }
}

#[test]
fn skills_view_lays_the_groups_side_by_side() {
    let state = Portfolio::new();
    let Node::Container { content, .. } = state.skills_view() else {
        panic!("the skills section is a container");
    };
    let Node::Column { children, .. } = *content else {
        panic!("the skills section holds a column");
    };
    assert_eq!(children.len(), 3);
    assert_eq!(children[1], Node::Space { width: Length::Shrink, height: Length::Fixed(30) });
    let Node::Row { children: groups, spacing, align } = &children[2] else {
        panic!("the groups stand in a row");
    };
    assert_eq!((*spacing, *align), (0, Alignment::Start));
    assert_eq!(groups.len(), 3);
    assert_eq!(groups[1], Node::Space { width: Length::Fixed(20), height: Length::Shrink });
    let Node::Container { content: group, .. } = &groups[0] else {
        panic!("a group stands in a card");
    };
    let Node::Column { children: lines, spacing, align, padding } = &**group else {
        panic!("a group is a column");
    };
    assert_eq!((*spacing, *align, *padding), (8, Alignment::Start, 0));
    assert_eq!(lines.len(), 6);
    assert_eq!(lines[1], Node::Space { width: Length::Shrink, height: Length::Fixed(12) });
    assert_eq!(lines[2], state.skill_bar("Rust", 85));
    assert_eq!(lines[5], state.skill_bar("C++", 70));
}

#[test]
fn projects_view_shows_the_three_projects() {
    let state = Portfolio::new();
    let Node::Container { content, .. } = state.projects_view() else {
        panic!("the projects section is a container");
    };
    let Node::Column { children, .. } = *content else {
        panic!("the projects section holds a column");
    };
    assert_eq!(children.len(), 3);
    assert_eq!(
        children[0],
        Node::Text {
            content: "Featured Projects".to_string(),
            size: 36,
            color: Some(Color::accent()),
            centered: false
        }
    );
    let Node::Column { children: cards, spacing, align, padding } = &children[2] else {
        panic!("the cards stand in a column");
    };
    assert_eq!((*spacing, *align, *padding), (0, Alignment::Start, 0));
    let gap = Node::Space { width: Length::Shrink, height: Length::Fixed(20) };
    assert_eq!(cards.len(), 5);
    assert_eq!(
        cards[0],
        state.project_card(
            "Hyprland Config Manager",
            "A modern GUI application for managing Hyprland configurations with real-time preview and easy customization.",
            &["Rust", "Iced", "TOML", "Linux"]
        )
    );
    assert_eq!(cards[1], gap);
    assert_eq!(
        cards[2],
        state.project_card(
            "System Monitor",
            "Real-time system monitoring dashboard with beautiful charts and system information display.",
            &["Rust", "Iced", "sysinfo", "Charts"]
        )
    );
    assert_eq!(cards[3], gap);
    assert_eq!(
        cards[4],
        state.project_card(
            "Package Manager GUI",
            "Modern package manager interface for Arch Linux with AUR support and dependency visualization.",
            &["Rust", "Iced", "Alpm", "AUR"]
        )
    );
}

#[test]
fn contact_view_lists_the_contacts() {
    let state = Portfolio::new();
    let contact = state.contact_view();
    assert_eq!(
        texts_in(&contact),
        vec![
            "Let's Connect",
            "I'm always open to discussing new opportunities,\ncollaborations, or just having a chat about technology!",
            "\u{1F4E7}",
            "john.developer@email.com",
            "\u{1F419}",
            "github.com/johndeveloper",
            "\u{1F4BC}",
            "linkedin.com/in/johndeveloper",
            "\u{1F310}",
            "johndeveloper.dev",
        ]
    );
    let Node::Container { content, .. } = contact else {
        panic!("the contact section is a container");
    };
    let Node::Column { children, .. } = *content else {
        panic!("the contact section holds a column");
    };
    let Node::Container { content: card_content, style, .. } = &children[2] else {
        panic!("the body of the contact section is a card");
    };
    assert_eq!(*style, Some(StyleKind::Card));
    let Node::Column { children: body, align, .. } = &**card_content else {
        panic!("the card holds a column");
    };
    assert_eq!(*align, Alignment::Center);
    assert_eq!(body.len(), 3);
    assert_eq!(
        body[0],
        Node::Text {
            content: "I'm always open to discussing new opportunities,\ncollaborations, or just having a chat about technology!".to_string(),
            size: 18,
            color: None,
            centered: true
        }
    );
    assert_eq!(body[1], Node::Space { width: Length::Shrink, height: Length::Fixed(30) });
    let Node::Column { children: rows, spacing, .. } = &body[2] else {
        panic!("the contacts stand in a column");
    };
    assert_eq!(*spacing, 12);
    assert_eq!(rows.len(), 4);
    assert_eq!(rows[0], state.contact_item("\u{1F4E7}", "john.developer@email.com"));
    assert_eq!(rows[3], state.contact_item("\u{1F310}", "johndeveloper.dev"));
}

#[test]
fn scenario_rendered_views() {
    let start = Portfolio::new();
    let on_projects = update(start, Message::NavigateTo(Section::Projects));
    assert_eq!(on_projects, state_on(Section::Projects, Theme::Dark));
    let tree = render(on_projects);
    let texts = texts_in(&tree);
    for title in ["Hyprland Config Manager", "System Monitor", "Package Manager GUI"] {
        assert_eq!(texts.iter().filter(|text| text.as_str() == title).count(), 1);
    }
    assert_eq!(styled_in(&tree, StyleKind::Card).len(), 3);
    for home_only in
        ["John Developer", "Full-Stack Developer & Linux Enthusiast", "\u{1F468}\u{200D}\u{1F4BB}"]
    {
        assert!(!texts.iter().any(|text| text == home_only));
    }
    assert!(styled_in(&tree, StyleKind::Hero).is_empty());
    let buttons = buttons_in(&tree);
    assert!(!buttons.iter().any(|button| button.label == "View Projects"));
    assert!(!buttons.iter().any(|button| button.label == "Get In Touch"));
    let active: Vec<&ButtonSeen> = buttons.iter().filter(|button| button.is_active).collect();
    assert_eq!(active.len(), 1);
    assert_eq!(active[0].on_press, Message::NavigateTo(Section::Projects));

    let idle = InteractionFlags { is_active: false };
    let dark_card = resolve(StyleKind::Card, on_projects.theme, idle);
    assert_eq!(dark_card.background_color, Color { red: 10, green: 10, blue: 10, alpha: 50 });
    let in_light = state_on(Section::Projects, Theme::Light);
    let light_card = resolve(StyleKind::Card, in_light.theme, idle);
    assert_eq!(light_card.background_color, Color { red: 100, green: 100, blue: 100, alpha: 80 });
    assert_eq!(render(in_light), tree);
    let back = update(in_light, Message::ToggleTheme);
    assert_eq!(back, state_on(Section::Projects, Theme::Dark));
    assert_eq!(render(back), tree);
}
