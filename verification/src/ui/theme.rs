//! Colours and text attributes of the interface, with a monochrome fallback
//! for terminals that ask for no colour.
use vstd::prelude::*;

use crate::git::{GitPipelineStatus, GitProjectStatus};
use crate::text::{ascii_lowercase_chars, chars_of, eq_ignore_ascii_case, eq_ignore_case, eq_lit, lower_seq, trim, trim_chars};

verus! {

#[derive(Debug, Clone, Copy, PartialEq, Eq, Structural)]
pub enum ThemeMode {
    Color,
    Monochrome,
}

#[derive(Debug, Clone, Copy, PartialEq, Eq, Structural)]
pub enum Color {
    Yellow,
    Gray,
    Cyan,
    White,
    DarkGray,
    Green,
    Magenta,
    Red,
    Blue,
}

/// Foreground, background and the attributes set on text.
#[derive(Debug, Clone, Copy, PartialEq, Eq, Structural)]
pub struct Style {
    pub fg: Option<Color>,
    pub bg: Option<Color>,
    pub bold: bool,
    pub dim: bool,
    pub underlined: bool,
    pub reversed: bool,
}

pub open spec fn plain() -> Style {
    Style { fg: None, bg: None, bold: false, dim: false, underlined: false, reversed: false }
}

pub open spec fn fg(c: Color) -> Style {
    Style { fg: Some(c), ..plain() }
}

pub open spec fn fg_bold(c: Color) -> Style {
    Style { fg: Some(c), bold: true, ..plain() }
}

pub open spec fn bold() -> Style {
    Style { bold: true, ..plain() }
}

pub open spec fn dim() -> Style {
    Style { dim: true, ..plain() }
}

impl Style {
    /// No colour and no attribute.
    pub fn plain() -> (r: Style)
        ensures
            r == plain(),
    {
        Style { fg: None, bg: None, bold: false, dim: false, underlined: false, reversed: false }
    }

    pub fn with_fg(self, c: Color) -> (r: Style)
        ensures
            r == (Style { fg: Some(c), ..self }),
    {
        Style { fg: Some(c), ..self }
    }

    pub fn with_bg(self, c: Color) -> (r: Style)
        ensures
            r == (Style { bg: Some(c), ..self }),
    {
        Style { bg: Some(c), ..self }
    }

    pub fn with_bold(self) -> (r: Style)
        ensures
            r == (Style { bold: true, ..self }),
    {
        Style { bold: true, ..self }
    }

    pub fn with_dim(self) -> (r: Style)
        ensures
            r == (Style { dim: true, ..self }),
    {
        Style { dim: true, ..self }
    }

    pub fn with_underlined(self) -> (r: Style)
        ensures
            r == (Style { underlined: true, ..self }),
    {
        Style { underlined: true, ..self }
    }

    pub fn with_reversed(self) -> (r: Style)
        ensures
            r == (Style { reversed: true, ..self }),
    {
        Style { reversed: true, ..self }
    }
}

/// The word of a theme override, trimmed and lower-cased.
pub open spec fn override_word(value: Seq<char>) -> Seq<char> {
    lower_seq(trim(value))
}

pub open spec fn parse_theme_override_spec(value: Seq<char>) -> Option<ThemeMode> {
    let w = override_word(value);
    if w == "color"@ || w == "colour"@ || w == "ansi"@ || w == "on"@ || w == "1"@ {
        Some(ThemeMode::Color)
    } else if w == "mono"@ || w == "monochrome"@ || w == "none"@ || w == "off"@ || w == "0"@ {
        Some(ThemeMode::Monochrome)
    } else {
        None
    }
}

/// Reads a theme override such as `PRM_THEME`: `color`, `colour`, `ansi`,
/// `on`, `1` ask for colour; `mono`, `monochrome`, `none`, `off`, `0` for
/// none; case and surrounding whitespace do not matter.
pub fn parse_theme_override(value: &str) -> (r: Option<ThemeMode>)
    ensures
        r == parse_theme_override_spec(value@),
{
    let cs = chars_of(value);
    let t = trim_chars(cs.as_slice());
    let w = ascii_lowercase_chars(t.as_slice());
    let w = w.as_slice();
    if eq_lit(w, "color") || eq_lit(w, "colour") || eq_lit(w, "ansi") || eq_lit(w, "on") || eq_lit(
        w,
        "1",
    ) {
        Some(ThemeMode::Color)
    } else if eq_lit(w, "mono") || eq_lit(w, "monochrome") || eq_lit(w, "none") || eq_lit(w, "off")
        || eq_lit(w, "0") {
        Some(ThemeMode::Monochrome)
    } else {
        None
    }
}

pub open spec fn opt_view(o: Option<&str>) -> Option<Seq<char>> {
    match o {
        Some(s) => Some(s@),
        None => None,
    }
}

pub open spec fn detect_spec(
    theme_override: Option<Seq<char>>,
    no_color: bool,
    term: Option<Seq<char>>,
    clicolor: Option<Seq<char>>,
) -> ThemeMode {
    let chosen = match theme_override {
        Some(v) => parse_theme_override_spec(v),
        None => None,
    };
    if chosen is Some {
        chosen->0
    } else if no_color || (clicolor is Some && trim(clicolor->0) == "0"@) {
        ThemeMode::Monochrome
    } else if term is Some && eq_ignore_case(trim(term->0), "dumb"@) {
        ThemeMode::Monochrome
    } else {
        ThemeMode::Color
    }
}

/// The theme from the environment: an override wins; else `NO_COLOR` set,
/// `CLICOLOR=0` or `TERM=dumb` mean monochrome; else colour.
pub fn detect_theme_mode_from_env(
    theme_override: Option<&str>,
    no_color: bool,
    term: Option<&str>,
    clicolor: Option<&str>,
) -> (r: ThemeMode)
    ensures
        r == detect_spec(opt_view(theme_override), no_color, opt_view(term), opt_view(clicolor)),
{
    if let Some(v) = theme_override {
        if let Some(mode) = parse_theme_override(v) {
            return mode;
        }
    }
    let clicolor_zero = match clicolor {
        Some(c) => {
            let cs = chars_of(c);
            let t = trim_chars(cs.as_slice());
            eq_lit(t.as_slice(), "0")
        },
        None => false,
    };
    if no_color || clicolor_zero {
        return ThemeMode::Monochrome;
    }
    if let Some(t) = term {
        let cs = chars_of(t);
        let tt = trim_chars(cs.as_slice());
        let dumb = chars_of("dumb");
        if eq_ignore_ascii_case(tt.as_slice(), dumb.as_slice()) {
            return ThemeMode::Monochrome;
        }
    }
    ThemeMode::Color
}

pub open spec fn pick(mode: ThemeMode, color: Style, monochrome: Style) -> Style {
    match mode {
        ThemeMode::Color => color,
        ThemeMode::Monochrome => monochrome,
    }
}

fn style_with_fallback(mode: ThemeMode, color: Style, monochrome: Style) -> (r: Style)
    ensures
        r == pick(mode, color, monochrome),
{
    match mode {
        ThemeMode::Color => color,
        ThemeMode::Monochrome => monochrome,
    }
}

/// Border of the focused pane.
pub fn focus_border_style(mode: ThemeMode) -> (r: Style)
    ensures
        r == pick(mode, fg_bold(Color::Yellow), bold()),
{
    style_with_fallback(
        mode,
        Style::plain().with_fg(Color::Yellow).with_bold(),
        Style::plain().with_bold(),
    )
}

/// Border of the other panes.
pub fn normal_border_style(mode: ThemeMode) -> (r: Style)
    ensures
        r == pick(mode, fg(Color::Gray), plain()),
{
    style_with_fallback(mode, Style::plain().with_fg(Color::Gray), Style::plain())
}

pub fn pane_title_style(mode: ThemeMode, focused: bool) -> (r: Style)
    ensures
        r == if focused {
            pick(mode, fg_bold(Color::Cyan), bold())
        } else {
            pick(mode, fg(Color::Gray), dim())
        },
{
    if focused {
        style_with_fallback(
            mode,
            Style::plain().with_fg(Color::Cyan).with_bold(),
            Style::plain().with_bold(),
        )
    } else {
        style_with_fallback(mode, Style::plain().with_fg(Color::Gray), Style::plain().with_dim())
    }
}

pub fn header_style(mode: ThemeMode) -> (r: Style)
    ensures
        r == pick(mode, fg_bold(Color::Cyan), Style { bold: true, underlined: true, ..plain() }),
{
    style_with_fallback(
        mode,
        Style::plain().with_fg(Color::Cyan).with_bold(),
        Style::plain().with_bold().with_underlined(),
    )
}

pub fn selected_item_style(mode: ThemeMode) -> (r: Style)
    ensures
        r == pick(
            mode,
            Style { fg: Some(Color::White), bg: Some(Color::DarkGray), bold: true, ..plain() },
            Style { bold: true, underlined: true, ..plain() },
        ),
{
    style_with_fallback(
        mode,
        Style::plain().with_fg(Color::White).with_bg(Color::DarkGray).with_bold(),
        Style::plain().with_bold().with_underlined(),
    )
}

pub fn done_todo_style(mode: ThemeMode) -> (r: Style)
    ensures
        r == pick(mode, fg(Color::Gray), dim()),
{
    style_with_fallback(mode, Style::plain().with_fg(Color::Gray), Style::plain().with_dim())
}

pub fn muted_style(mode: ThemeMode) -> (r: Style)
    ensures
        r == pick(mode, Style { fg: Some(Color::Gray), dim: true, ..plain() }, dim()),
{
    style_with_fallback(
        mode,
        Style::plain().with_fg(Color::Gray).with_dim(),
        Style::plain().with_dim(),
    )
}

pub fn status_style(mode: ThemeMode) -> (r: Style)
    ensures
        r == pick(mode, fg_bold(Color::Green), bold()),
{
    style_with_fallback(
        mode,
        Style::plain().with_fg(Color::Green).with_bold(),
        Style::plain().with_bold(),
    )
}

pub fn help_style(mode: ThemeMode) -> (r: Style)
    ensures
        r == pick(mode, fg(Color::White), plain()),
{
    style_with_fallback(mode, Style::plain().with_fg(Color::White), Style::plain())
}

/// Open-todo counts in the project list.
pub fn count_style(mode: ThemeMode) -> (r: Style)
    ensures
        r == pick(mode, fg_bold(Color::Magenta), bold()),
{
    style_with_fallback(
        mode,
        Style::plain().with_fg(Color::Magenta).with_bold(),
        Style::plain().with_bold(),
    )
}

/// Key names in the shortcut lines and the help overlay.
pub fn shortcut_style(mode: ThemeMode) -> (r: Style)
    ensures
        r == pick(mode, fg_bold(Color::Yellow), bold()),
{
    style_with_fallback(
        mode,
        Style::plain().with_fg(Color::Yellow).with_bold(),
        Style::plain().with_bold(),
    )
}

/// Border of the text field being edited.
pub fn active_field_border_style(mode: ThemeMode) -> (r: Style)
    ensures
        r == pick(mode, fg_bold(Color::Yellow), bold()),
{
    focus_border_style(mode)
}

/// Border of a text field not being edited.
pub fn inactive_field_border_style(mode: ThemeMode) -> (r: Style)
    ensures
        r == pick(mode, fg(Color::Gray), plain()),
{
    normal_border_style(mode)
}

/// Text of a field: plain while edited, muted otherwise.
pub fn input_value_style(mode: ThemeMode, active: bool) -> (r: Style)
    ensures
        r == if active {
            plain()
        } else {
            pick(mode, Style { fg: Some(Color::Gray), dim: true, ..plain() }, dim())
        },
{
    if active {
        Style::plain()
    } else {
        muted_style(mode)
    }
}

/// Title of a confirmation that deletes something.
pub fn danger_style(mode: ThemeMode) -> (r: Style)
    ensures
        r == pick(mode, fg_bold(Color::Red), Style { bold: true, reversed: true, ..plain() }),
{
    style_with_fallback(
        mode,
        Style::plain().with_fg(Color::Red).with_bold(),
        Style::plain().with_bold().with_reversed(),
    )
}

pub open spec fn git_status_style_spec(mode: ThemeMode, status: GitProjectStatus) -> Style {
    match mode {
        ThemeMode::Color => match status {
            GitProjectStatus::Changed => fg(Color::Yellow),
            GitProjectStatus::WaitingToPush => fg(Color::Cyan),
            GitProjectStatus::Committed => fg(Color::Magenta),
            GitProjectStatus::UpToDate => fg(Color::Green),
            GitProjectStatus::Behind => fg(Color::Red),
            GitProjectStatus::Diverged => fg_bold(Color::Red),
            GitProjectStatus::NoCommits => fg(Color::Blue),
            GitProjectStatus::NotGit => fg(Color::Gray),
            GitProjectStatus::Loading => fg(Color::Gray),
            GitProjectStatus::Error(_) => fg_bold(Color::Red),
        },
        ThemeMode::Monochrome => match status {
            GitProjectStatus::Changed => bold(),
            GitProjectStatus::WaitingToPush => bold(),
            GitProjectStatus::Committed => plain(),
            GitProjectStatus::UpToDate => plain(),
            GitProjectStatus::Behind => Style { reversed: true, ..plain() },
            GitProjectStatus::Diverged => Style { bold: true, reversed: true, ..plain() },
            GitProjectStatus::NoCommits => dim(),
            GitProjectStatus::NotGit => dim(),
            GitProjectStatus::Loading => dim(),
            GitProjectStatus::Error(_) => Style { bold: true, reversed: true, ..plain() },
        },
    }
}

/// The style of a project's git badge; a status not probed yet looks like
/// "not a repository".
pub fn git_status_style(mode: ThemeMode, status: &GitProjectStatus) -> (r: Style)
    ensures
        r == git_status_style_spec(mode, *status),
{
    let p = Style::plain();
    match mode {
        ThemeMode::Color => match status {
            GitProjectStatus::Changed => p.with_fg(Color::Yellow),
            GitProjectStatus::WaitingToPush => p.with_fg(Color::Cyan),
            GitProjectStatus::Committed => p.with_fg(Color::Magenta),
            GitProjectStatus::UpToDate => p.with_fg(Color::Green),
            GitProjectStatus::Behind => p.with_fg(Color::Red),
            GitProjectStatus::Diverged => p.with_fg(Color::Red).with_bold(),
            GitProjectStatus::NoCommits => p.with_fg(Color::Blue),
            GitProjectStatus::NotGit => p.with_fg(Color::Gray),
            GitProjectStatus::Loading => p.with_fg(Color::Gray),
            GitProjectStatus::Error(_) => p.with_fg(Color::Red).with_bold(),
        },
        ThemeMode::Monochrome => match status {
            GitProjectStatus::Changed => p.with_bold(),
            GitProjectStatus::WaitingToPush => p.with_bold(),
            GitProjectStatus::Committed => p,
            GitProjectStatus::UpToDate => p,
            GitProjectStatus::Behind => p.with_reversed(),
            GitProjectStatus::Diverged => p.with_bold().with_reversed(),
            GitProjectStatus::NoCommits => p.with_dim(),
            GitProjectStatus::NotGit => p.with_dim(),
            GitProjectStatus::Loading => p.with_dim(),
            GitProjectStatus::Error(_) => p.with_bold().with_reversed(),
        },
    }
}

pub open spec fn pipeline_status_style_spec(mode: ThemeMode, status: GitPipelineStatus) -> Style {
    match mode {
        ThemeMode::Color => match status {
            GitPipelineStatus::Passing => fg(Color::Green),
            GitPipelineStatus::Failing => fg(Color::Red),
            GitPipelineStatus::Running => fg(Color::Yellow),
            GitPipelineStatus::Unknown => fg(Color::Gray),
            GitPipelineStatus::NotConfigured => fg(Color::Blue),
            GitPipelineStatus::NotSupported => fg(Color::Gray),
            GitPipelineStatus::NotGit => fg(Color::Gray),
            GitPipelineStatus::Error(_) => fg_bold(Color::Red),
        },
        ThemeMode::Monochrome => match status {
            GitPipelineStatus::Passing => plain(),
            GitPipelineStatus::Failing => Style { reversed: true, ..plain() },
            GitPipelineStatus::Running => bold(),
            GitPipelineStatus::Unknown => dim(),
            GitPipelineStatus::NotConfigured => dim(),
            GitPipelineStatus::NotSupported => dim(),
            GitPipelineStatus::NotGit => dim(),
            GitPipelineStatus::Error(_) => Style { bold: true, reversed: true, ..plain() },
        },
    }
}

/// The style of a project's pipeline badge.
pub fn pipeline_status_style(mode: ThemeMode, status: &GitPipelineStatus) -> (r: Style)
    ensures
        r == pipeline_status_style_spec(mode, *status),
{
    let p = Style::plain();
    match mode {
        ThemeMode::Color => match status {
            GitPipelineStatus::Passing => p.with_fg(Color::Green),
            GitPipelineStatus::Failing => p.with_fg(Color::Red),
            GitPipelineStatus::Running => p.with_fg(Color::Yellow),
            GitPipelineStatus::Unknown => p.with_fg(Color::Gray),
            GitPipelineStatus::NotConfigured => p.with_fg(Color::Blue),
            GitPipelineStatus::NotSupported => p.with_fg(Color::Gray),
            GitPipelineStatus::NotGit => p.with_fg(Color::Gray),
            GitPipelineStatus::Error(_) => p.with_fg(Color::Red).with_bold(),
        },
        ThemeMode::Monochrome => match status {
            GitPipelineStatus::Passing => p,
            GitPipelineStatus::Failing => p.with_reversed(),
            GitPipelineStatus::Running => p.with_bold(),
            GitPipelineStatus::Unknown => p.with_dim(),
            GitPipelineStatus::NotConfigured => p.with_dim(),
            GitPipelineStatus::NotSupported => p.with_dim(),
            GitPipelineStatus::NotGit => p.with_dim(),
            GitPipelineStatus::Error(_) => p.with_bold().with_reversed(),
        },
    }
}

/// An override the parser accepts decides the theme, whatever the rest of
/// the environment says.
pub proof fn law_override_wins(
    value: Seq<char>,
    no_color: bool,
    term: Option<Seq<char>>,
    clicolor: Option<Seq<char>>,
)
    requires
        parse_theme_override_spec(value) is Some,
    ensures
        detect_spec(Some(value), no_color, term, clicolor) == parse_theme_override_spec(value)->0,
{
}

/// Without an accepted override, `NO_COLOR` always gives monochrome.
pub proof fn law_no_color_is_monochrome(
    theme_override: Option<Seq<char>>,
    term: Option<Seq<char>>,
    clicolor: Option<Seq<char>>,
)
    requires
        theme_override is None || parse_theme_override_spec(theme_override->0) is None,
    ensures
        detect_spec(theme_override, true, term, clicolor) == ThemeMode::Monochrome,
{
}

} // verus!
