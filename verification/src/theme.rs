//! Themes: named bundles of appearance settings.

use vstd::prelude::*;
use vstd::std_specs::convert::FromSpecImpl;
use crate::span::TimeSpan;

verus! {

/// The settings that make up an appearance.
#[derive(Debug, Clone, PartialEq, Eq)]
pub struct ThemeSpec {
    /// Name of the desktop theme.
    pub desktop: String,
    /// Name of the mouse cursor theme.
    pub mouse: String,
    /// Name of the window controls theme.
    pub controls: String,
    /// Name of the icon set.
    pub icons: String,
    /// Name of the window border theme.
    pub borders: String,
    /// Path of the wallpaper picture.
    pub wallpaper: String,
    /// Name of the terminal palette, if the theme sets one.
    pub kitty: Option<String>,
}

/// A named appearance, with the window of the day in which it is chosen
/// automatically, if it has one.
#[derive(Debug, Clone, PartialEq, Eq)]
pub struct Theme {
    pub name: String,
    pub spec: ThemeSpec,
    pub span: Option<TimeSpan>,
}

/// Which colour scheme applications are asked to prefer.
#[derive(Debug, Clone, Copy, PartialEq, Eq, Structural)]
pub enum ColorSchemePreference {
    Default,
    Light,
    Dark,
}

impl ColorSchemePreference {
    /// The value that the desktop's `color-scheme` setting takes.
    pub open spec fn setting(self) -> Seq<char> {
        match self {
            ColorSchemePreference::Dark => "prefer-dark"@,
            ColorSchemePreference::Default => "default"@,
            ColorSchemePreference::Light => "prefer-light"@,
        }
    }
}

impl<'a> From<&'a ColorSchemePreference> for &'static str {
    /// The value that the desktop's `color-scheme` setting takes.
    fn from(value: &'a ColorSchemePreference) -> (setting: &'static str)
        ensures
            setting@ == value.setting(),
    {
        match value {
            ColorSchemePreference::Dark => "prefer-dark",
            ColorSchemePreference::Default => "default",
            ColorSchemePreference::Light => "prefer-light",
        }
    }
}

impl<'a> FromSpecImpl<&'a ColorSchemePreference> for &'static str {
    open spec fn obeys_from_spec() -> bool {
        true
    }

    open spec fn from_spec(value: &'a ColorSchemePreference) -> &'static str {
        match value {
            ColorSchemePreference::Dark => "prefer-dark",
            ColorSchemePreference::Default => "default",
            ColorSchemePreference::Light => "prefer-light",
        }
    }
}

} // verus!
