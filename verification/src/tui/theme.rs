//! The theme configuration: which preset is chosen and which of its colours
//! are overridden.

use crate::config::clone_optional_text;
use crate::text::{chars_of, is_prefix, starts_with_text, str_eq, string_of, trim, trim_spec};
use vstd::prelude::*;

verus! {

/// The stored configuration.
#[derive(Debug)]
pub struct BathConfig {
    pub theme: Option<ThemeSection>,
}

/// The theme section of the configuration: a preset name and optional
/// overrides of its colours, each written as CSS writes a colour
/// (`#RRGGBB` or `oklch(...)`).
#[derive(Debug)]
pub struct ThemeSection {
    pub preset: Option<String>,
    pub base_100: Option<String>,
    pub base_200: Option<String>,
    pub base_300: Option<String>,
    pub base_content: Option<String>,
    pub primary: Option<String>,
    pub primary_content: Option<String>,
    pub secondary: Option<String>,
    pub secondary_content: Option<String>,
    pub accent: Option<String>,
    pub accent_content: Option<String>,
    pub neutral: Option<String>,
    pub neutral_content: Option<String>,
    pub info: Option<String>,
    pub info_content: Option<String>,
    pub success: Option<String>,
    pub success_content: Option<String>,
    pub warning: Option<String>,
    pub warning_content: Option<String>,
    pub error: Option<String>,
    pub error_content: Option<String>,
}

/// Mathematical model of a [`ThemeSection`].
pub ghost struct ThemeSectionView {
    pub preset: Option<Seq<char>>,
    pub base_100: Option<Seq<char>>,
    pub base_200: Option<Seq<char>>,
    pub base_300: Option<Seq<char>>,
    pub base_content: Option<Seq<char>>,
    pub primary: Option<Seq<char>>,
    pub primary_content: Option<Seq<char>>,
    pub secondary: Option<Seq<char>>,
    pub secondary_content: Option<Seq<char>>,
    pub accent: Option<Seq<char>>,
    pub accent_content: Option<Seq<char>>,
    pub neutral: Option<Seq<char>>,
    pub neutral_content: Option<Seq<char>>,
    pub info: Option<Seq<char>>,
    pub info_content: Option<Seq<char>>,
    pub success: Option<Seq<char>>,
    pub success_content: Option<Seq<char>>,
    pub warning: Option<Seq<char>>,
    pub warning_content: Option<Seq<char>>,
    pub error: Option<Seq<char>>,
    pub error_content: Option<Seq<char>>,
}

/// Mathematical model of a [`BathConfig`].
pub ghost struct BathConfigView {
    pub theme: Option<ThemeSectionView>,
}

impl ThemeSectionView {
    /// The section that names no preset and overrides nothing.
    pub open spec fn empty() -> ThemeSectionView {
        ThemeSectionView {
            preset: None,
            base_100: None,
            base_200: None,
            base_300: None,
            base_content: None,
            primary: None,
            primary_content: None,
            secondary: None,
            secondary_content: None,
            accent: None,
            accent_content: None,
            neutral: None,
            neutral_content: None,
            info: None,
            info_content: None,
            success: None,
            success_content: None,
            warning: None,
            warning_content: None,
            error: None,
            error_content: None,
        }
    }
}

impl View for ThemeSection {
    type V = ThemeSectionView;

    open spec fn view(&self) -> ThemeSectionView {
        ThemeSectionView {
            preset: self.preset.deep_view(),
            base_100: self.base_100.deep_view(),
            base_200: self.base_200.deep_view(),
            base_300: self.base_300.deep_view(),
            base_content: self.base_content.deep_view(),
            primary: self.primary.deep_view(),
            primary_content: self.primary_content.deep_view(),
            secondary: self.secondary.deep_view(),
            secondary_content: self.secondary_content.deep_view(),
            accent: self.accent.deep_view(),
            accent_content: self.accent_content.deep_view(),
            neutral: self.neutral.deep_view(),
            neutral_content: self.neutral_content.deep_view(),
            info: self.info.deep_view(),
            info_content: self.info_content.deep_view(),
            success: self.success.deep_view(),
            success_content: self.success_content.deep_view(),
            warning: self.warning.deep_view(),
            warning_content: self.warning_content.deep_view(),
            error: self.error.deep_view(),
            error_content: self.error_content.deep_view(),
        }
    }
}

impl DeepView for ThemeSection {
    type V = ThemeSectionView;

    open spec fn deep_view(&self) -> ThemeSectionView {
        self@
    }
}

impl View for BathConfig {
    type V = BathConfigView;

    open spec fn view(&self) -> BathConfigView {
        BathConfigView { theme: self.theme.deep_view() }
    }
}

impl DeepView for BathConfig {
    type V = BathConfigView;

    open spec fn deep_view(&self) -> BathConfigView {
        self@
    }
}

impl Default for ThemeSection {
    fn default() -> (out: Self)
        ensures
            out@ == ThemeSectionView::empty(),
    {
        ThemeSection {
            preset: None,
            base_100: None,
            base_200: None,
            base_300: None,
            base_content: None,
            primary: None,
            primary_content: None,
            secondary: None,
            secondary_content: None,
            accent: None,
            accent_content: None,
            neutral: None,
            neutral_content: None,
            info: None,
            info_content: None,
            success: None,
            success_content: None,
            warning: None,
            warning_content: None,
            error: None,
            error_content: None,
        }
    }
}

impl Default for BathConfig {
    fn default() -> (out: Self)
        ensures
            out@.theme is None,
    {
        BathConfig { theme: None }
    }
}

impl Clone for ThemeSection {
    fn clone(&self) -> (out: Self)
        ensures
            out@ == self@,
    {
        ThemeSection {
            preset: clone_optional_text(&self.preset),
            base_100: clone_optional_text(&self.base_100),
            base_200: clone_optional_text(&self.base_200),
            base_300: clone_optional_text(&self.base_300),
            base_content: clone_optional_text(&self.base_content),
            primary: clone_optional_text(&self.primary),
            primary_content: clone_optional_text(&self.primary_content),
            secondary: clone_optional_text(&self.secondary),
            secondary_content: clone_optional_text(&self.secondary_content),
            accent: clone_optional_text(&self.accent),
            accent_content: clone_optional_text(&self.accent_content),
            neutral: clone_optional_text(&self.neutral),
            neutral_content: clone_optional_text(&self.neutral_content),
            info: clone_optional_text(&self.info),
            info_content: clone_optional_text(&self.info_content),
            success: clone_optional_text(&self.success),
            success_content: clone_optional_text(&self.success_content),
            warning: clone_optional_text(&self.warning),
            warning_content: clone_optional_text(&self.warning_content),
            error: clone_optional_text(&self.error),
            error_content: clone_optional_text(&self.error_content),
        }
    }
}

impl Clone for BathConfig {
    fn clone(&self) -> (out: Self)
        ensures
            out@ == self@,
    {
        match &self.theme {
            Some(section) => BathConfig { theme: Some(section.clone()) },
            None => BathConfig { theme: None },
        }
    }
}

/// Name of the preset used when the configuration names none.
pub fn default_preset() -> (out: &'static str)
    ensures
        out@ == "dracula"@,
{
    "dracula"
}

/// The preset a configuration asks for: the one its theme section names, or
/// the default preset.
pub open spec fn preset_of(cfg: BathConfigView) -> Seq<char> {
    match cfg.theme {
        Some(section) => match section.preset {
            Some(preset) => preset,
            None => "dracula"@,
        },
        None => "dracula"@,
    }
}

/// Returns the preset a configuration asks for.
pub fn preset_from_config(cfg: &BathConfig) -> (out: String)
    ensures
        out@ == preset_of(cfg@),
{
    match &cfg.theme {
        Some(section) => match &section.preset {
            Some(preset) => preset.clone(),
            None => String::from_str(default_preset()),
        },
        None => String::from_str(default_preset()),
    }
}

/// A colour by its red, green and blue parts.
#[derive(Debug, Clone, Copy, PartialEq, Eq, Structural)]
pub struct Rgb {
    pub r: u8,
    pub g: u8,
    pub b: u8,
}

/// Why a text is not a colour.
#[derive(Debug, Clone, Copy, PartialEq, Eq, Structural)]
pub enum ColorError {
    /// The text is empty.
    Empty,
    /// The text after `#` is not three or six hexadecimal digits.
    InvalidHex,
    /// The text is neither `#...` nor `oklch(...)`.
    Unsupported,
}

/// A colour as CSS writes it, read as far as it can be read without
/// arithmetic on fractions.
#[derive(Debug)]
pub enum CssColor {
    /// `#RGB` or `#RRGGBB`.
    Hex(Rgb),
    /// `oklch(...)`, with what stands between the brackets.
    Oklch(String),
}

/// Mathematical model of a [`CssColor`].
pub ghost enum CssColorView {
    Hex(Rgb),
    Oklch(Seq<char>),
}

impl View for CssColor {
    type V = CssColorView;

    open spec fn view(&self) -> CssColorView {
        match self {
            CssColor::Hex(rgb) => CssColorView::Hex(*rgb),
            CssColor::Oklch(inner) => CssColorView::Oklch(inner@),
        }
    }
}

/// The value of a hexadecimal digit; `None` for any other character.
pub open spec fn hex_digit(c: char) -> Option<int> {
    if '0' <= c <= '9' {
        Some(c as int - '0' as int)
    } else if 'a' <= c <= 'f' {
        Some(c as int - 'a' as int + 10)
    } else if 'A' <= c <= 'F' {
        Some(c as int - 'A' as int + 10)
    } else {
        None
    }
}

/// The number that two characters stand for as a hexadecimal numeral: two
/// digits, or a plus sign and one digit.
pub open spec fn hex_pair(a: char, b: char) -> Option<int> {
    match hex_digit(b) {
        Some(low) => if a == '+' {
            Some(low)
        } else {
            match hex_digit(a) {
                Some(high) => Some(16 * high + low),
                None => None,
            }
        },
        None => None,
    }
}

/// The colour that the text after `#` stands for, surrounding white space
/// left out: six characters are three pairs, three characters stand for
/// three pairs of the same character twice.
pub open spec fn hex_color(hex: Seq<char>) -> Option<Rgb> {
    let h = trim_spec(hex);
    if h.len() == 6 {
        match (hex_pair(h[0], h[1]), hex_pair(h[2], h[3]), hex_pair(h[4], h[5])) {
            (Some(r), Some(g), Some(b)) => Some(Rgb { r: r as u8, g: g as u8, b: b as u8 }),
            _ => None,
        }
    } else if h.len() == 3 {
        match (hex_pair(h[0], h[0]), hex_pair(h[1], h[1]), hex_pair(h[2], h[2])) {
            (Some(r), Some(g), Some(b)) => Some(Rgb { r: r as u8, g: g as u8, b: b as u8 }),
            _ => None,
        }
    } else {
        None
    }
}

/// Reads the value of a hexadecimal digit.
fn read_hex_digit(c: char) -> (out: Option<u8>)
    ensures
        match out {
            Some(v) => hex_digit(c) == Some(v as int) && v < 16,
            None => hex_digit(c) is None,
        },
{
    if '0' <= c && c <= '9' {
        Some((c as u32 - '0' as u32) as u8)
    } else if 'a' <= c && c <= 'f' {
        Some((c as u32 - 'a' as u32 + 10) as u8)
    } else if 'A' <= c && c <= 'F' {
        Some((c as u32 - 'A' as u32 + 10) as u8)
    } else {
        None
    }
}

/// Reads two characters as a hexadecimal numeral.
fn read_hex_pair(a: char, b: char) -> (out: Option<u8>)
    ensures
        match out {
            Some(v) => hex_pair(a, b) == Some(v as int),
            None => hex_pair(a, b) is None,
        },
{
    match read_hex_digit(b) {
        Some(low) => if a == '+' {
            Some(low)
        } else {
            match read_hex_digit(a) {
                Some(high) => Some(16 * high + low),
                None => None,
            }
        },
        None => None,
    }
}

/// Reads the colour that the text after `#` stands for.
pub fn parse_hex_color(hex: &str) -> (out: Result<Rgb, ColorError>)
    ensures
        match out {
            Ok(rgb) => hex_color(hex@) == Some(rgb),
            Err(e) => e == ColorError::InvalidHex && hex_color(hex@) is None,
        },
{
    let trimmed = trim(hex);
    let h = chars_of(trimmed.as_str());
    let pairs = if h.len() == 6 {
        (read_hex_pair(h[0], h[1]), read_hex_pair(h[2], h[3]), read_hex_pair(h[4], h[5]))
    } else if h.len() == 3 {
        (read_hex_pair(h[0], h[0]), read_hex_pair(h[1], h[1]), read_hex_pair(h[2], h[2]))
    } else {
        return Err(ColorError::InvalidHex);
    };
    match pairs {
        (Some(r), Some(g), Some(b)) => Ok(Rgb { r, g, b }),
        _ => Err(ColorError::InvalidHex),
    }
}

/// What a text stands for as a colour, surrounding white space left out.
pub open spec fn css_color(s: Seq<char>) -> Result<CssColorView, ColorError> {
    let t = trim_spec(s);
    if t.len() == 0 {
        Err(ColorError::Empty)
    } else if t[0] == '#' {
        match hex_color(t.skip(1)) {
            Some(rgb) => Ok(CssColorView::Hex(rgb)),
            None => Err(ColorError::InvalidHex),
        }
    } else if is_prefix(t, "oklch("@) && t.last() == ')' {
        Ok(CssColorView::Oklch(t.subrange(6, t.len() - 1)))
    } else {
        Err(ColorError::Unsupported)
    }
}

/// Reads a colour as CSS writes it.
pub fn parse_css_color(s: &str) -> (out: Result<CssColor, ColorError>)
    ensures
        match out {
            Ok(color) => css_color(s@) == Ok::<CssColorView, ColorError>(color@),
            Err(e) => css_color(s@) == Err::<CssColorView, ColorError>(e),
        },
{
    let trimmed = trim(s);
    let t = chars_of(trimmed.as_str());
    if t.len() == 0 {
        return Err(ColorError::Empty);
    }
    if t[0] == '#' {
        let hex = string_of(&t, 1, t.len());
        proof {
            assert(t@.skip(1) =~= t@.subrange(1, t.len() as int));
        }
        return match parse_hex_color(hex.as_str()) {
            Ok(rgb) => Ok(CssColor::Hex(rgb)),
            Err(e) => Err(e),
        };
    }
    proof {
        reveal_strlit("oklch(");
    }
    if starts_with_text(trimmed.as_str(), "oklch(") && t[t.len() - 1] == ')' {
        proof {
            assert(t@.subrange(0, 6)[5] == '(');
            assert(t[5] == '(');
        }
        return Ok(CssColor::Oklch(string_of(&t, 6, t.len() - 1)));
    }
    Err(ColorError::Unsupported)
}

/// The text of a colour: the override if there is one, otherwise what the
/// preset gives.
pub fn effective_color(overriding: &Option<String>, preset_color: &str) -> (out: String)
    ensures
        out@ == match overriding.deep_view() {
            Some(text) => text,
            None => preset_color@,
        },
{
    match overriding {
        Some(text) => text.clone(),
        None => String::from_str(preset_color),
    }
}

/// The place of the first of `names` that is `name`, if there is one.
pub open spec fn name_place(names: Seq<Seq<char>>, name: Seq<char>) -> Option<int>
    decreases names.len(),
{
    if names.len() == 0 {
        None
    } else if names.first() == name {
        Some(0)
    } else {
        match name_place(names.drop_first(), name) {
            Some(k) => Some(k + 1),
            None => None,
        }
    }
}

/// The theme that stands for the preset `preset` among the themes called
/// `names`: the one of that name, surrounding white space left out and an
/// empty name standing for the default preset; failing that the default
/// preset; failing that the first theme. No themes give none.
pub open spec fn preset_place(names: Seq<Seq<char>>, preset: Seq<char>) -> Option<int> {
    let wanted = if trim_spec(preset).len() == 0 {
        "dracula"@
    } else {
        trim_spec(preset)
    };
    match name_place(names, wanted) {
        Some(k) => Some(k),
        None => match name_place(names, "dracula"@) {
            Some(k) => Some(k),
            None => if names.len() > 0 {
                Some(0)
            } else {
                None
            },
        },
    }
}

/// Finds the place of the first of `names` that is `name`.
fn find_name(names: &Vec<String>, name: &str) -> (out: Option<usize>)
    ensures
        match out {
            Some(k) => k < names.len() && name_place(names.deep_view(), name@) == Some(k as int),
            None => name_place(names.deep_view(), name@) is None,
        },
{
    let ghost all = names.deep_view();
    let mut i: usize = 0;
    proof {
        assert(all.skip(0) =~= all);
    }
    while i < names.len()
        invariant
            i <= names.len(),
            all == names.deep_view(),
            name_place(all, name@) == match name_place(all.skip(i as int), name@) {
                Some(k) => Some(k + i),
                None => None,
            },
        decreases names.len() - i,
    {
        proof {
            assert(all.skip(i as int).first() == names[i as int]@);
            assert(all.skip(i as int).drop_first() =~= all.skip(i + 1));
        }
        if str_eq(names[i].as_str(), name) {
            return Some(i);
        }
        i += 1;
    }
    None
}

/// Picks the theme that stands for the preset `preset` among the themes
/// called `names`.
pub fn pick_preset(names: &Vec<String>, preset: &str) -> (out: Option<usize>)
    ensures
        match out {
            Some(k) => k < names.len() && preset_place(names.deep_view(), preset@) == Some(
                k as int,
            ),
            None => preset_place(names.deep_view(), preset@) is None,
        },
{
    let trimmed = trim(preset);
    let wanted = if trimmed.as_str().unicode_len() == 0 {
        String::from_str(default_preset())
    } else {
        trimmed
    };
    match find_name(names, wanted.as_str()) {
        Some(k) => Some(k),
        None => match find_name(names, default_preset()) {
            Some(k) => Some(k),
            None => if names.len() > 0 {
                Some(0)
            } else {
                None
            },
        },
    }
}

} // verus!
