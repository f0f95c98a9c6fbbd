//! The process-wide presentation-theme choice, fixed before a generation pass
//! and threaded read-only through every synthesis step.

use vstd::prelude::*;
use vstd::string::StringExecFns;

verus! {

/// The three constructor forms an emitted prompt builder can take.
#[derive(Debug, Clone, Copy, PartialEq, Eq, Structural)]
pub enum ThemeChoice {
    /// Unthemed construction.
    Unthemed,
    /// Construction with the prompt library's bundled colorful theme.
    DefaultColorful,
    /// Construction with the re-exported, caller-facing colorful theme.
    ExternalColorful,
}

/// The token text of the theme expression handed to `with_theme`, if the
/// choice is themed at all.
pub open spec fn spec_theme_expr(t: ThemeChoice) -> Option<Seq<char>> {
    match t {
        ThemeChoice::Unthemed => None,
        ThemeChoice::DefaultColorful => Some(
            "&dialogue_macro::dialoguer::theme::ColorfulTheme::default()"@,
        ),
        ThemeChoice::ExternalColorful => Some("&dialogue_macro::ColorfulTheme::default()"@),
    }
}

/// The constructor call that follows the builder's type name: `::new()` when
/// unthemed, `::with_theme(..)` otherwise.
pub open spec fn spec_theme_suffix(t: ThemeChoice) -> Seq<char> {
    match spec_theme_expr(t) {
        None => "::new()"@,
        Some(expr) => "::with_theme("@ + expr + ")"@,
    }
}

/// The theme expression to hand to `with_theme`, if the choice is themed.
pub fn get_theme(choice: ThemeChoice) -> (r: Option<String>)
    ensures
        match r {
            Some(s) => spec_theme_expr(choice) == Some(s@),
            None => spec_theme_expr(choice) is None,
        },
{
    match choice {
        ThemeChoice::Unthemed => None,
        ThemeChoice::DefaultColorful => Some(
            String::from_str("&dialogue_macro::dialoguer::theme::ColorfulTheme::default()"),
        ),
        ThemeChoice::ExternalColorful => Some(
            String::from_str("&dialogue_macro::ColorfulTheme::default()"),
        ),
    }
}

/// The constructor suffix for the builder under the given theme choice.
pub fn render_theme_suffix(choice: ThemeChoice) -> (out: String)
    ensures
        out@ == spec_theme_suffix(choice),
{
    match get_theme(choice) {
        None => String::from_str("::new()"),
        Some(expr) => {
            let mut out = String::from_str("::with_theme(");
            out.append(expr.as_str());
            out.append(")");
            out
        },
    }
}

/// The theme choice a numeric configuration value selects: the unthemed form
/// for zero, the bundled theme for one, the re-exported theme for two, and no
/// choice at all otherwise.
pub fn theme_choice_from_index(i: u64) -> (r: Option<ThemeChoice>)
    ensures
        r == (if i == 0 {
            Some(ThemeChoice::Unthemed)
        } else if i == 1 {
            Some(ThemeChoice::DefaultColorful)
        } else if i == 2 {
            Some(ThemeChoice::ExternalColorful)
        } else {
            None::<ThemeChoice>
        }),
{
    if i == 0 {
        Some(ThemeChoice::Unthemed)
    } else if i == 1 {
        Some(ThemeChoice::DefaultColorful)
    } else if i == 2 {
        Some(ThemeChoice::ExternalColorful)
    } else {
        None
    }
}

} // verus!
