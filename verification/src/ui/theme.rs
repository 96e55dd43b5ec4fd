//! The themes by name: which there are, what they are called, and which
//! one is active. The colors of a theme are the caller's business.

use crate::text::{lowercase_of, str_eq, str_trim, trim_spec};
use vstd::prelude::*;

verus! {

/// Identifier of the theme that is active at the start.
pub const DEFAULT_THEME_ID: &'static str = "ciapre-dark";

/// Number of themes.
pub const THEME_COUNT: usize = 6;

/// The identifier of the theme at `index`; the themes are in the order of
/// their identifiers.
pub open spec fn theme_id_at(index: int) -> Seq<char> {
    if index == 0 {
        "catppuccin-frappe"@
    } else if index == 1 {
        "catppuccin-latte"@
    } else if index == 2 {
        "catppuccin-macchiato"@
    } else if index == 3 {
        "catppuccin-mocha"@
    } else if index == 4 {
        "ciapre-blue"@
    } else {
        "ciapre-dark"@
    }
}

/// The label of the theme at `index`.
pub open spec fn theme_label_at(index: int) -> Seq<char> {
    if index == 0 {
        "Catppuccin Frappé"@
    } else if index == 1 {
        "Catppuccin Latte"@
    } else if index == 2 {
        "Catppuccin Macchiato"@
    } else if index == 3 {
        "Catppuccin Mocha"@
    } else if index == 4 {
        "Ciapre Blue"@
    } else {
        "Ciapre Dark"@
    }
}

/// The index of the first theme from `i` on that has the identifier.
pub open spec fn theme_index_from(id: Seq<char>, i: int) -> Option<int>
    decreases THEME_COUNT - i,
{
    if 0 <= i < THEME_COUNT {
        if theme_id_at(i) == id {
            Some(i)
        } else {
            theme_index_from(id, i + 1)
        }
    } else {
        None
    }
}

/// The index of the theme with an identifier.
pub open spec fn theme_index(id: Seq<char>) -> Option<int> {
    theme_index_from(id, 0)
}

/// The label of the theme with an identifier.
pub open spec fn label_of(id: Seq<char>) -> Option<Seq<char>> {
    match theme_index(id) {
        Some(i) => Some(theme_label_at(i)),
        None => None,
    }
}

/// The theme to start with: the preferred one, trimmed and in lower case,
/// where there is such a theme; else the default.
pub open spec fn resolved_theme(preferred: Option<Seq<char>>) -> Seq<char> {
    match preferred {
        Some(candidate) => {
            let name = lowercase_of(trim_spec(candidate));
            if name.len() > 0 && theme_index(name) is Some {
                name
            } else {
                DEFAULT_THEME_ID@
            }
        },
        None => DEFAULT_THEME_ID@,
    }
}

/// The identifier and the label of the theme at `index`.
pub fn theme_at(index: usize) -> (r: (&'static str, &'static str))
    requires
        index < THEME_COUNT,
    ensures
        r.0@ == theme_id_at(index as int),
        r.1@ == theme_label_at(index as int),
{
    if index == 0 {
        ("catppuccin-frappe", "Catppuccin Frappé")
    } else if index == 1 {
        ("catppuccin-latte", "Catppuccin Latte")
    } else if index == 2 {
        ("catppuccin-macchiato", "Catppuccin Macchiato")
    } else if index == 3 {
        ("catppuccin-mocha", "Catppuccin Mocha")
    } else if index == 4 {
        ("ciapre-blue", "Ciapre Blue")
    } else {
        ("ciapre-dark", "Ciapre Dark")
    }
}

/// The place of the theme with an identifier.
pub fn find_theme(theme_id: &str) -> (r: Option<usize>)
    ensures
        match r {
            Some(i) => theme_index(theme_id@) == Some(i as int) && i < THEME_COUNT,
            None => theme_index(theme_id@) is None,
        },
{
    let mut i: usize = 0;
    while i < THEME_COUNT
        invariant
            i <= THEME_COUNT,
            theme_index_from(theme_id@, i as int) == theme_index(theme_id@),
        decreases THEME_COUNT - i,
    {
        if str_eq(theme_at(i).0, theme_id) {
            return Some(i);
        }
        i += 1;
    }
    None
}

/// The identifiers of the themes, in order.
pub fn available_themes() -> (r: Vec<&'static str>)
    ensures
        r@.len() == THEME_COUNT,
        forall|i: int| 0 <= i < THEME_COUNT ==> (#[trigger] r@[i])@ == theme_id_at(i),
{
    let mut ids: Vec<&'static str> = Vec::new();
    let mut i: usize = 0;
    while i < THEME_COUNT
        invariant
            i <= THEME_COUNT,
            ids@.len() == i,
            forall|k: int| 0 <= k < i ==> (#[trigger] ids@[k])@ == theme_id_at(k),
        decreases THEME_COUNT - i,
    {
        ids.push(theme_at(i).0);
        i += 1;
    }
    ids
}

/// The label of a theme, for display.
pub fn theme_label(theme_id: &str) -> (r: Option<&'static str>)
    ensures
        match r {
            Some(label) => label_of(theme_id@) == Some(label@),
            None => label_of(theme_id@) is None,
        },
{
    match find_theme(theme_id) {
        Some(i) => Some(theme_at(i).1),
        None => None,
    }
}

/// The label of a theme that has to exist, or the complaint that it does
/// not.
pub fn ensure_theme(theme_id: &str) -> (r: Result<&'static str, String>)
    ensures
        match r {
            Ok(label) => label_of(theme_id@) == Some(label@),
            Err(message) => label_of(theme_id@) is None && message@ == "Theme not found"@,
        },
{
    match theme_label(theme_id) {
        Some(label) => Ok(label),
        None => Err("Theme not found".to_owned()),
    }
}

/// The theme to start with, given the one that is preferred.
pub fn resolve_theme(preferred: Option<String>) -> (r: String)
    ensures
        r@ == resolved_theme(
            match preferred {
                Some(p) => Some(p@),
                None => None,
            },
        ),
{
    match preferred {
        Some(candidate) => {
            let name = str_trim(candidate.as_str()).as_str().to_lowercase();
            if !name.as_str().is_empty() && find_theme(name.as_str()).is_some() {
                name
            } else {
                DEFAULT_THEME_ID.to_owned()
            }
        },
        None => DEFAULT_THEME_ID.to_owned(),
    }
}

/// Model of an [`ActiveTheme`].
pub struct ActiveThemeV {
    pub id: Seq<char>,
    pub label: Seq<char>,
}

/// The theme that is active: its identifier and its label.
#[derive(Debug)]
pub struct ActiveTheme {
    pub id: String,
    pub label: String,
}

impl View for ActiveTheme {
    type V = ActiveThemeV;

    open spec fn view(&self) -> ActiveThemeV {
        ActiveThemeV { id: self.id@, label: self.label@ }
    }
}

impl ActiveThemeV {
    /// The active theme after a theme was asked for by name, trimmed and
    /// in lower case: that theme where it exists, else the one before.
    pub open spec fn after_set(self, theme_id: Seq<char>) -> ActiveThemeV {
        let name = lowercase_of(trim_spec(theme_id));
        match theme_index(name) {
            Some(i) => ActiveThemeV { id: theme_id_at(i), label: theme_label_at(i) },
            None => self,
        }
    }
}

impl ActiveTheme {
    /// The default theme as the active one.
    pub fn new() -> (r: ActiveTheme)
        ensures
            r@ == (ActiveThemeV { id: DEFAULT_THEME_ID@, label: theme_label_at(5) }),
    {
        ActiveTheme { id: DEFAULT_THEME_ID.to_owned(), label: theme_at(5).1.to_owned() }
    }
}

/// Makes a theme the active one; an unknown theme is refused and changes
/// nothing.
pub fn set_active_theme(active: &mut ActiveTheme, theme_id: &str) -> (r: Result<(), String>)
    ensures
        final(active)@ == old(active)@.after_set(theme_id@),
        match r {
            Ok(_) => theme_index(lowercase_of(trim_spec(theme_id@))) is Some,
            Err(message) => theme_index(lowercase_of(trim_spec(theme_id@))) is None && message@
                == "Unknown theme '"@ + theme_id@ + "'"@,
        },
{
    let name = str_trim(theme_id).as_str().to_lowercase();
    match find_theme(name.as_str()) {
        Some(i) => {
            let (id, label) = theme_at(i);
            active.id = id.to_owned();
            active.label = label.to_owned();
            Ok(())
        },
        None => {
            let mut message = "Unknown theme '".to_owned();
            message.append(theme_id);
            message.append("'");
            Err(message)
        },
    }
}

/// The identifier of the active theme.
pub fn active_theme_id(active: &ActiveTheme) -> (r: String)
    ensures
        r@ == active@.id,
{
    active.id.clone()
}

/// The label of the active theme.
pub fn active_theme_label(active: &ActiveTheme) -> (r: String)
    ensures
        r@ == active@.label,
{
    active.label.clone()
}

} // verus!
