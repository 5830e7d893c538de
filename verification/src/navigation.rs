//! The frame of the pages: the top bar, the main navigation, the login
//! page's consent step and the configuration menu.

use vstd::prelude::*;
use crate::resources::ResourceFilter;
use crate::text::opt_text;

verus! {

/// Properties of the top bar.
pub struct TopNavBar {
    pub title: Option<String>,
    pub subtitle: Option<String>,
    /// Where the back button leads; without one the logo shows.
    pub back: Option<String>,
}

impl TopNavBar {
    /// A bar with nothing set.
    pub fn new() -> (b: Self)
        ensures
            b.title is None && b.subtitle is None && b.back is None,
    {
        TopNavBar { title: None, subtitle: None, back: None }
    }
}

/// The heading of the bar: its title, "Proxmox" by default; its subtitle,
/// "Virtual Environment" with the default title.
pub open spec fn heading(b: TopNavBar) -> (Seq<char>, Option<Seq<char>>) {
    match b.title {
        Some(t) => (t@, opt_text(b.subtitle)),
        None => ("Proxmox"@, Some("Virtual Environment"@)),
    }
}

/// The title and subtitle the bar shows.
pub fn nav_heading(b: &TopNavBar) -> (r: (String, Option<String>))
    ensures
        (r.0@, opt_text(r.1)) == heading(*b),
{
    match &b.title {
        Some(t) => (
            t.clone(),
            match &b.subtitle {
                Some(s) => Some(s.clone()),
                None => None,
            },
        ),
        None => (String::from_str("Proxmox"), Some(String::from_str("Virtual Environment"))),
    }
}

/// What leads the bar: a back button to a location, or the logo.
pub enum Leading {
    Back(String),
    /// The logo image, dark on a dark theme.
    Logo(&'static str),
}

/// The leading element: the back button where set, else the logo for the
/// current theme.
pub fn leading(b: &TopNavBar, dark_mode: bool) -> (r: Leading)
    ensures
        match b.back {
            Some(l) => r matches Leading::Back(x) && x@ == l@,
            None => r matches Leading::Logo(src) && src@ == (if dark_mode {
                "/images/proxmox_logo_icon_black.png"@
            } else {
                "/images/proxmox_logo_icon_white.png"@
            }),
        },
{
    match &b.back {
        Some(l) => Leading::Back(l.clone()),
        None => Leading::Logo(
            if dark_mode {
                "/images/proxmox_logo_icon_black.png"
            } else {
                "/images/proxmox_logo_icon_white.png"
            },
        ),
    }
}

/// Events of the bar.
pub enum NavBarMsg {
    ThemeChanged(bool),
    Logout,
}

/// State of the bar: whether the theme is dark.
pub struct PveTopNavBar {
    pub dark_mode: bool,
}

impl PveTopNavBar {
    /// Follows a theme change; logging out asks to clear the stored
    /// authentication (the returned flag).
    pub fn update(&mut self, msg: NavBarMsg) -> (clear_auth: bool)
        ensures
            match msg {
                NavBarMsg::ThemeChanged(d) => !clear_auth && final(self).dark_mode == d,
                NavBarMsg::Logout => clear_auth && final(self).dark_mode == old(self).dark_mode,
            },
    {
        match msg {
            NavBarMsg::ThemeChanged(d) => {
                self.dark_mode = d;
                false
            },
            NavBarMsg::Logout => true,
        }
    }
}

/// The sections of the main navigation.
#[derive(Clone, Copy, Debug, PartialEq, Eq, Structural)]
pub enum MainNavigationSelection {
    Dashboard,
    Resources,
    Configuration,
}

/// The key of a section's tab.
pub fn nav_key(s: MainNavigationSelection) -> (r: &'static str)
    ensures
        r@ == match s {
            MainNavigationSelection::Dashboard => "dashboard"@,
            MainNavigationSelection::Resources => "resources"@,
            MainNavigationSelection::Configuration => "configuration"@,
        },
{
    match s {
        MainNavigationSelection::Dashboard => "dashboard",
        MainNavigationSelection::Resources => "resources",
        MainNavigationSelection::Configuration => "configuration",
    }
}

/// The tabs of the main navigation, in order: key, icon and label.
pub fn nav_items() -> (r: Vec<(&'static str, &'static str, &'static str)>)
    ensures
        r@.len() == 3,
        r@[0].0@ == "dashboard"@ && r@[0].1@ == "fa fa-tachometer"@ && r@[0].2@ == "Dashboard"@,
        r@[1].0@ == "resources"@ && r@[1].1@ == "fa fa-book"@ && r@[1].2@ == "Resources"@,
        r@[2].0@ == "configuration"@ && r@[2].1@ == "fa fa-cogs"@ && r@[2].2@ == "Configuration"@,
{
    let mut v: Vec<(&'static str, &'static str, &'static str)> = Vec::new();
    v.push(("dashboard", "fa fa-tachometer", "Dashboard"));
    v.push(("resources", "fa fa-book", "Resources"));
    v.push(("configuration", "fa fa-cogs", "Configuration"));
    v
}

/// The resources tab opens the resource page with the empty filter.
pub fn resources_tab_filter() -> (f: ResourceFilter)
    ensures
        f.name@.len() == 0,
        !f.storage && !f.qemu && !f.lxc && !f.nodes,
{
    ResourceFilter::default()
}

/// Properties of the login page: the consent text shown before login.
pub struct PageLogin {
    pub consent_text: Option<String>,
}

/// State of the login page: whether the user consented.
pub struct PvePageLogin {
    pub consent: bool,
}

impl PvePageLogin {
    /// Not yet consented.
    pub fn create() -> (p: Self)
        ensures
            !p.consent,
    {
        PvePageLogin { consent: false }
    }

    /// The user consents.
    pub fn consent(&mut self)
        ensures
            final(self).consent,
    {
        self.consent = true;
    }

    /// The consent text to show before the login form: none once consented
    /// or where it is missing or empty.
    pub fn consent_text(&self, props: &PageLogin) -> (r: Option<String>)
        ensures
            opt_text(r) == (if self.consent {
                None
            } else {
                match props.consent_text {
                    Some(t) => if t@.len() > 0 { Some(t@) } else { None },
                    None => None,
                }
            }),
    {
        if self.consent {
            return None;
        }
        match &props.consent_text {
            Some(t) => if t.as_str().unicode_len() > 0 {
                Some(t.clone())
            } else {
                None
            },
            None => None,
        }
    }
}

/// The entries of the configuration menu, in order: icon and title.
pub fn configuration_menu() -> (r: Vec<(&'static str, &'static str)>)
    ensures
        r@.len() == 11,
        r@[0].0@ == "server"@ && r@[0].1@ == "Cluster"@,
        r@[1].0@ == "gear"@ && r@[1].1@ == "Options"@,
        r@[2].0@ == "database"@ && r@[2].1@ == "Storage"@,
        r@[3].0@ == "floppy-o"@ && r@[3].1@ == "Backup"@,
        r@[4].0@ == "retweet"@ && r@[4].1@ == "Replication"@,
        r@[5].0@ == "unlock"@ && r@[5].1@ == "Permissions"@,
        r@[6].0@ == "heartbeat"@ && r@[6].1@ == "High Availability"@,
        r@[7].0@ == "certificate"@ && r@[7].1@ == "ACME"@,
        r@[8].0@ == "shield"@ && r@[8].1@ == "Firewall"@,
        r@[9].0@ == "bar-chart"@ && r@[9].1@ == "Metric Server"@,
        r@[10].0@ == "comments-o"@ && r@[10].1@ == "Support"@,
{
    let mut v: Vec<(&'static str, &'static str)> = Vec::new();
    v.push(("server", "Cluster"));
    v.push(("gear", "Options"));
    v.push(("database", "Storage"));
    v.push(("floppy-o", "Backup"));
    v.push(("retweet", "Replication"));
    v.push(("unlock", "Permissions"));
    v.push(("heartbeat", "High Availability"));
    v.push(("certificate", "ACME"));
    v.push(("shield", "Firewall"));
    v.push(("bar-chart", "Metric Server"));
    v.push(("comments-o", "Support"));
    v
}

} // verus!
