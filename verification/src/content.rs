//! What the sections show: the skills, the projects and the contact
//! details. All of it is fixed; nothing is loaded.

use vstd::prelude::*;

verus! {

/// The title of the window.
pub const WINDOW_TITLE: &'static str = "Portfolio - John Developer";

pub const OWNER_NAME: &'static str = "John Developer";

pub const OWNER_GLYPH: &'static str = "👨‍💻";

pub const OWNER_ROLE: &'static str = "Full-Stack Developer & Linux Enthusiast";

pub const OWNER_PITCH: &'static str =
    "Building awesome applications with modern technologies\nArch Linux • Hyprland • Rust • Python • Web Development";

pub const ABOUT_INTRODUCTION: &'static str =
    "I'm a passionate developer who loves creating efficient and beautiful applications. I use Arch Linux with Hyprland as my daily driver and enjoy working with modern technologies like Rust, Python, and various frameworks.";

pub const ABOUT_JOURNEY: &'static str =
    "My journey into programming started with curiosity about how things work under the hood. I love the challenge of solving complex problems and the satisfaction of building something that makes people's lives easier.";

pub const ABOUT_PASTIMES: &'static str =
    "When I'm not coding, you can find me contributing to open-source projects, exploring new technologies, or tweaking my Hyprland configuration to perfection.";

pub const FACT_SYSTEM: &'static str = "🐧 Daily driver: Arch Linux + Hyprland";

pub const FACT_LANGUAGES: &'static str = "⌨️ Favorite languages: Rust, Python, JavaScript";

pub const FACT_FOCUS: &'static str = "🎯 Focus: Desktop apps & web development";

pub const FACT_FUEL: &'static str = "☕ Fuel: Coffee and open-source software";

pub const CONTACT_INVITATION: &'static str =
    "I'm always open to discussing new opportunities,\ncollaborations, or just having a chat about technology!";

pub const CONFIG_MANAGER_SUMMARY: &'static str =
    "A modern GUI application for managing Hyprland configurations with real-time preview and easy customization.";

pub const SYSTEM_MONITOR_SUMMARY: &'static str =
    "Real-time system monitoring dashboard with beautiful charts and system information display.";

pub const PACKAGE_MANAGER_SUMMARY: &'static str =
    "Modern package manager interface for Arch Linux with AUR support and dependency visualization.";

/// A skill and how well it is mastered, in percent.
#[derive(Clone, Copy, Debug, PartialEq, Eq)]
pub struct Skill {
    pub name: &'static str,
    pub level: u8,
}

/// A project with the technologies it is built on.
#[derive(Debug, PartialEq, Eq)]
pub struct Project {
    pub title: &'static str,
    pub description: &'static str,
    pub tags: Vec<&'static str>,
}

/// One way to get in touch: a glyph and the address it stands for.
#[derive(Clone, Copy, Debug, PartialEq, Eq)]
pub struct Contact {
    pub icon: &'static str,
    pub text: &'static str,
}

impl Skill {
    /// The level is a percentage: at most one hundred.
    pub open spec fn wf(self) -> bool {
        self.level <= 100
    }

    /// A skill, where `level` is a percentage; `None` where it is above one
    /// hundred.
    pub fn new(name: &'static str, level: u8) -> (skill: Option<Skill>)
        ensures
            level <= 100 ==> skill == Some(Skill { name, level }),
            level > 100 ==> skill is None,
            skill matches Some(s) ==> s.wf(),
    {
        if level <= 100 {
            Some(Skill { name, level })
        } else {
            None
        }
    }
}

/// The programming languages, with their levels.
pub open spec fn programming_skills_spec() -> Seq<Skill> {
    seq![
        Skill { name: "Rust", level: 85 },
        Skill { name: "Python", level: 90 },
        Skill { name: "JavaScript", level: 80 },
        Skill { name: "C++", level: 70 },
    ]
}

/// The technologies and tools, with their levels.
pub open spec fn technology_skills_spec() -> Seq<Skill> {
    seq![
        Skill { name: "Iced/GUI", level: 80 },
        Skill { name: "Web Dev", level: 85 },
        Skill { name: "Linux/Bash", level: 95 },
        Skill { name: "Git", level: 90 },
    ]
}

/// The ways to get in touch.
pub open spec fn contacts_spec() -> Seq<Contact> {
    seq![
        Contact { icon: "📧", text: "john.developer@email.com" },
        Contact { icon: "🐙", text: "github.com/johndeveloper" },
        Contact { icon: "💼", text: "linkedin.com/in/johndeveloper" },
        Contact { icon: "🌐", text: "johndeveloper.dev" },
    ]
}

/// The programming languages, in the order in which they are shown.
pub fn programming_skills() -> (skills: Vec<Skill>)
    ensures
        skills@ == programming_skills_spec(),
        forall|i: int| 0 <= i < skills@.len() ==> (#[trigger] skills@[i]).wf(),
{
    vec![
        Skill { name: "Rust", level: 85 },
        Skill { name: "Python", level: 90 },
        Skill { name: "JavaScript", level: 80 },
        Skill { name: "C++", level: 70 },
    ]
}

/// The technologies and tools, in the order in which they are shown.
pub fn technology_skills() -> (skills: Vec<Skill>)
    ensures
        skills@ == technology_skills_spec(),
        forall|i: int| 0 <= i < skills@.len() ==> (#[trigger] skills@[i]).wf(),
{
    vec![
        Skill { name: "Iced/GUI", level: 80 },
        Skill { name: "Web Dev", level: 85 },
        Skill { name: "Linux/Bash", level: 95 },
        Skill { name: "Git", level: 90 },
    ]
}

/// The ways to get in touch, in the order in which they are shown.
pub fn contacts() -> (entries: Vec<Contact>)
    ensures
        entries@ == contacts_spec(),
{
    vec![
        Contact { icon: "📧", text: "john.developer@email.com" },
        Contact { icon: "🐙", text: "github.com/johndeveloper" },
        Contact { icon: "💼", text: "linkedin.com/in/johndeveloper" },
        Contact { icon: "🌐", text: "johndeveloper.dev" },
    ]
}

/// The mathematical value of a [`Project`].
pub struct ProjectView {
    pub title: Seq<char>,
    pub description: Seq<char>,
    pub tags: Seq<Seq<char>>,
}

impl View for Project {
    type V = ProjectView;

    open spec fn view(&self) -> ProjectView {
        ProjectView {
            title: self.title@,
            description: self.description@,
            tags: Seq::new(self.tags@.len(), |i: int| self.tags@[i]@),
        }
    }
}

/// The values of a run of projects, in the same order.
pub open spec fn project_views(projects: Seq<Project>) -> Seq<ProjectView> {
    Seq::new(projects.len(), |i: int| projects[i]@)
}

/// The featured projects.
pub open spec fn featured_projects_spec() -> Seq<ProjectView> {
    seq![
        ProjectView {
            title: "Hyprland Config Manager"@,
            description: CONFIG_MANAGER_SUMMARY@,
            tags: seq!["Rust"@, "Iced"@, "TOML"@, "Linux"@],
        },
        ProjectView {
            title: "System Monitor"@,
            description: SYSTEM_MONITOR_SUMMARY@,
            tags: seq!["Rust"@, "Iced"@, "sysinfo"@, "Charts"@],
        },
        ProjectView {
            title: "Package Manager GUI"@,
            description: PACKAGE_MANAGER_SUMMARY@,
            tags: seq!["Rust"@, "Iced"@, "Alpm"@, "AUR"@],
        },
    ]
}

/// One project from its title, its description and four tags.
fn project(title: &'static str, description: &'static str, tags: [&'static str; 4]) -> (p: Project)
    ensures
        p@ == (ProjectView {
            title: title@,
            description: description@,
            tags: seq![tags[0]@, tags[1]@, tags[2]@, tags[3]@],
        }),
{
    let p = Project { title, description, tags: vec![tags[0], tags[1], tags[2], tags[3]] };
    assert(p@.tags == seq![tags[0]@, tags[1]@, tags[2]@, tags[3]@]);
    p
}

/// The featured projects, in the order in which they are shown.
pub fn featured_projects() -> (projects: Vec<Project>)
    ensures
        project_views(projects@) == featured_projects_spec(),
{
    let projects = vec![
        project("Hyprland Config Manager", CONFIG_MANAGER_SUMMARY, ["Rust", "Iced", "TOML", "Linux"]),
        project("System Monitor", SYSTEM_MONITOR_SUMMARY, ["Rust", "Iced", "sysinfo", "Charts"]),
        project("Package Manager GUI", PACKAGE_MANAGER_SUMMARY, ["Rust", "Iced", "Alpm", "AUR"]),
    ];
    assert(project_views(projects@) == featured_projects_spec());
    projects
}

} // verus!
