use vstd::prelude::*;

use crate::errors::ThemeError;
use crate::privacy::{chars_of, contains_text, lowercase_of, str_contains, to_lowercase};
use crate::types::{pair_views, ThemeMode};

verus! {

pub open spec fn is_hex_digit(c: char) -> bool {
    ('0' <= c && c <= '9') || ('a' <= c && c <= 'f') || ('A' <= c && c <= 'F')
}

/// A `#` followed by three or six hexadecimal digits.
pub open spec fn hex_color(s: Seq<char>) -> bool {
    &&& (s.len() == 4 || s.len() == 7)
    &&& s[0] == '#'
    &&& forall|i: int| 1 <= i < s.len() ==> is_hex_digit(#[trigger] s[i])
}

/// Validates a hex color string (e.g. "#2ea44f" or "#fff").
pub fn is_valid_hex_color(color: &str) -> (r: bool)
    ensures
        r == hex_color(color@),
{
    let c = chars_of(color);
    if c.len() != 4 && c.len() != 7 {
        return false;
    }
    if c[0] != '#' {
        return false;
    }
    let mut i: usize = 1;
    while i < c.len()
        invariant
            c@ == color@,
            1 <= i <= c@.len(),
            forall|j: int| 1 <= j < i ==> is_hex_digit(#[trigger] c@[j]),
        decreases c@.len() - i,
    {
        let ch = c[i];
        if !(('0' <= ch && ch <= '9') || ('a' <= ch && ch <= 'f') || ('A' <= ch && ch <= 'F')) {
            return false;
        }
        i = i + 1;
    }
    true
}

/// The colors of the dark palette, in the order of [`css_names`].
pub open spec fn dark_palette() -> Seq<Seq<char>> {
    seq!["#0d1117"@, "#161b22"@, "#21262d"@, "#c9d1d9"@, "#8b949e"@, "#30363d"@, "#58a6ff"@, "#1f242b"@, "#0d1117"@, "#484f58"@]
}

/// The colors of the light palette, in the order of [`css_names`].
pub open spec fn light_palette() -> Seq<Seq<char>> {
    seq!["#ffffff"@, "#f6f8fa"@, "#eaeef2"@, "#24292f"@, "#57606a"@, "#d0d7de"@, "#0969da"@, "#f3f4f6"@, "#ffffff"@, "#afb8c1"@]
}

pub open spec fn font_stack() -> Seq<char> {
    "-apple-system, BlinkMacSystemFont, 'Segoe UI', Helvetica, Arial, sans-serif"@
}

/// The CSS variables of a palette and accent color, as (name, value) pairs.
pub open spec fn css_pairs(p: Seq<Seq<char>>, accent: Seq<char>) -> Seq<(Seq<char>, Seq<char>)> {
    seq![
        ("--bg-primary"@, p[0]),
        ("--bg-secondary"@, p[1]),
        ("--bg-tertiary"@, p[2]),
        ("--text-primary"@, p[3]),
        ("--text-secondary"@, p[4]),
        ("--border-color"@, p[5]),
        ("--link-color"@, p[6]),
        ("--hover-bg"@, p[7]),
        ("--input-bg"@, p[8]),
        ("--scrollbar-color"@, p[9]),
        ("--accent-color"@, accent),
        ("--font-family"@, font_stack()),
        ("--transition-fast"@, "100ms"@),
        ("--transition-normal"@, "200ms"@),
        ("--transition-slow"@, "300ms"@),
    ]
}

/// The mode a GTK theme name stands for: dark when the name says so, light otherwise,
/// and dark when no GTK theme is set.
pub open spec fn system_theme_of(gtk_theme: Option<Seq<char>>) -> ThemeMode {
    match gtk_theme {
        Some(t) => if contains_text(lowercase_of(t), "dark"@) { ThemeMode::Dark } else { ThemeMode::Light },
        None => ThemeMode::Dark,
    }
}

fn var(name: &str, value: &str) -> (r: (String, String))
    ensures
        r.0@ == name@,
        r.1@ == value@,
{
    (name.to_owned(), value.to_owned())
}

/// The state of a [`ThemeEngine`].
pub struct ThemeView {
    pub theme: ThemeMode,
    pub accent_color: Seq<char>,
    pub gtk_theme: Option<Seq<char>>,
}

/// Dark, light or system theme with an accent color, rendered as CSS variables.
pub struct ThemeEngine {
    current_theme: ThemeMode,
    accent_color: String,
    gtk_theme: Option<String>,
}

impl View for ThemeEngine {
    type V = ThemeView;

    closed spec fn view(&self) -> ThemeView {
        ThemeView {
            theme: self.current_theme,
            accent_color: self.accent_color@,
            gtk_theme: match self.gtk_theme {
                Some(t) => Some(t@),
                None => None,
            },
        }
    }
}

impl ThemeEngine {
    /// An engine in `mode` with the default green accent and no GTK theme known.
    pub fn new(mode: ThemeMode) -> (r: Self)
        ensures
            r@ == (ThemeView { theme: mode, accent_color: "#2ea44f"@, gtk_theme: None }),
    {
        ThemeEngine { current_theme: mode, accent_color: "#2ea44f".to_owned(), gtk_theme: None }
    }

    /// Records the desktop's GTK theme name, which decides the system theme.
    pub fn set_gtk_theme(&mut self, gtk_theme: Option<&str>)
        ensures
            final(self)@ == (ThemeView { gtk_theme: crate::vault::text_of(gtk_theme), ..old(self)@ }),
    {
        self.gtk_theme = match gtk_theme {
            Some(t) => Some(t.to_owned()),
            None => None,
        };
    }

    pub fn set_theme(&mut self, mode: ThemeMode)
        ensures
            final(self)@ == (ThemeView { theme: mode, ..old(self)@ }),
    {
        self.current_theme = mode;
    }

    pub fn get_theme(&self) -> (r: &ThemeMode)
        ensures
            *r == self@.theme,
    {
        &self.current_theme
    }

    /// Sets the accent color; anything but a hex color is refused.
    pub fn set_accent_color(&mut self, color: &str) -> (r: Result<(), ThemeError>)
        ensures
            hex_color(color@) ==> r is Ok && final(self)@ == (ThemeView { accent_color: color@, ..old(self)@ }),
            !hex_color(color@) ==> (r matches Err(ThemeError::InvalidColor(c)) && c@ == color@ && final(self)@ == old(self)@),
    {
        if !is_valid_hex_color(color) {
            return Err(ThemeError::InvalidColor(color.to_owned()));
        }
        self.accent_color = color.to_owned();
        Ok(())
    }

    pub fn get_accent_color(&self) -> (r: &str)
        ensures
            r@ == self@.accent_color,
    {
        self.accent_color.as_str()
    }

    /// The desktop's preferred mode.
    pub fn detect_system_theme(&self) -> (r: ThemeMode)
        ensures
            r == system_theme_of(self@.gtk_theme),
    {
        proof {
            reveal_strlit("dark");
        }
        match &self.gtk_theme {
            Some(t) => {
                let lower = to_lowercase(t.as_str());
                if str_contains(lower.as_str(), "dark") {
                    ThemeMode::Dark
                } else {
                    ThemeMode::Light
                }
            },
            None => ThemeMode::Dark,
        }
    }

    /// The theme in use, with `System` resolved.
    pub fn effective_theme(&self) -> (r: ThemeMode)
        ensures
            self@.theme == ThemeMode::System ==> r == system_theme_of(self@.gtk_theme),
            self@.theme != ThemeMode::System ==> r == self@.theme,
    {
        match self.current_theme {
            ThemeMode::System => self.detect_system_theme(),
            other => other,
        }
    }

    /// Builds the CSS variables for a palette.
    pub fn build_variables(
        bg_primary: &str,
        bg_secondary: &str,
        bg_tertiary: &str,
        text_primary: &str,
        text_secondary: &str,
        border: &str,
        link: &str,
        hover_bg: &str,
        input_bg: &str,
        scrollbar: &str,
        accent: &str,
    ) -> (r: Vec<(String, String)>)
        ensures
            pair_views(r@) == css_pairs(
                seq![bg_primary@, bg_secondary@, bg_tertiary@, text_primary@, text_secondary@, border@, link@, hover_bg@, input_bg@, scrollbar@],
                accent@,
            ),
    {
        let mut v: Vec<(String, String)> = Vec::new();
        v.push(var("--bg-primary", bg_primary));
        v.push(var("--bg-secondary", bg_secondary));
        v.push(var("--bg-tertiary", bg_tertiary));
        v.push(var("--text-primary", text_primary));
        v.push(var("--text-secondary", text_secondary));
        v.push(var("--border-color", border));
        v.push(var("--link-color", link));
        v.push(var("--hover-bg", hover_bg));
        v.push(var("--input-bg", input_bg));
        v.push(var("--scrollbar-color", scrollbar));
        v.push(var("--accent-color", accent));
        v.push(var("--font-family", "-apple-system, BlinkMacSystemFont, 'Segoe UI', Helvetica, Arial, sans-serif"));
        v.push(var("--transition-fast", "100ms"));
        v.push(var("--transition-normal", "200ms"));
        v.push(var("--transition-slow", "300ms"));
        assert(pair_views(v@) =~= css_pairs(
            seq![bg_primary@, bg_secondary@, bg_tertiary@, text_primary@, text_secondary@, border@, link@, hover_bg@, input_bg@, scrollbar@],
            accent@,
        ));
        v
    }

    /// The CSS variables of the effective theme, as (name, value) pairs.
    pub fn get_css_variables(&self) -> (r: Vec<(String, String)>)
        ensures
            pair_views(r@) == css_pairs(
                if self@.theme == ThemeMode::Light || (self@.theme == ThemeMode::System && system_theme_of(self@.gtk_theme) == ThemeMode::Light) {
                    light_palette()
                } else {
                    dark_palette()
                },
                self@.accent_color,
            ),
    {
        let accent = self.accent_color.as_str();
        let r = match self.effective_theme() {
            ThemeMode::Light => Self::build_variables(
                "#ffffff", "#f6f8fa", "#eaeef2", "#24292f", "#57606a", "#d0d7de", "#0969da", "#f3f4f6", "#ffffff", "#afb8c1", accent,
            ),
            _ => Self::build_variables(
                "#0d1117", "#161b22", "#21262d", "#c9d1d9", "#8b949e", "#30363d", "#58a6ff", "#1f242b", "#0d1117", "#484f58", accent,
            ),
        };
        r
    }
}

} // verus!
