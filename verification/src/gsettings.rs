//! What to ask of the desktop's settings store.
//!
//! The library decides which settings a theme changes and which command
//! line makes each change; running the commands is the caller's part.

use vstd::prelude::*;
use vstd::string::{StrSliceExecFns, StringExecFns};
use crate::decimal::{decimal_text, render_u32};
use crate::text::same_text;
use crate::theme::{Theme, ThemeSpec};

verus! {

/// One of the settings that make up an appearance.
#[derive(Debug, Clone, Copy, PartialEq, Eq, Structural)]
pub enum Field {
    Desktop,
    Mouse,
    Controls,
    Icons,
    Borders,
    Wallpaper,
    Kitty,
}

/// A setting and the value it is to take: the mathematical content of a
/// [`Change`].
pub struct Setting {
    pub field: Field,
    pub value: Seq<char>,
}

/// A setting and the value it is to take.
#[derive(Debug, Clone, Copy, PartialEq, Eq)]
pub struct Change<'a> {
    pub field: Field,
    pub value: &'a str,
}

impl<'a> View for Change<'a> {
    type V = Setting;

    open spec fn view(&self) -> Setting {
        Setting { field: self.field, value: self.value@ }
    }
}

/// The settings of a list of changes, in order.
pub open spec fn settings_of(changes: Seq<Change<'_>>) -> Seq<Setting> {
    Seq::new(changes.len(), |i: int| changes[i]@)
}

/// The change of one setting, where its current value is not the wanted
/// one.
pub open spec fn change_if_differs(field: Field, current: Seq<char>, wanted: Seq<char>) -> Seq<
    Setting,
> {
    if current == wanted {
        Seq::empty()
    } else {
        seq![Setting { field, value: wanted }]
    }
}

/// The changes that turn the current appearance into the wanted one, in
/// the order in which they are made: each setting whose current value
/// differs from the wanted one, the wallpaper unless it is the same
/// picture, and the terminal palette whenever the theme names one.
pub open spec fn planned_changes(current: ThemeSpec, wanted: ThemeSpec, same_wallpaper: bool)
    -> Seq<Setting> {
    change_if_differs(Field::Desktop, current.desktop@, wanted.desktop@) + change_if_differs(
        Field::Mouse,
        current.mouse@,
        wanted.mouse@,
    ) + change_if_differs(Field::Controls, current.controls@, wanted.controls@)
        + change_if_differs(Field::Icons, current.icons@, wanted.icons@) + change_if_differs(
        Field::Borders,
        current.borders@,
        wanted.borders@,
    ) + (if same_wallpaper {
        Seq::empty()
    } else {
        seq![Setting { field: Field::Wallpaper, value: wanted.wallpaper@ }]
    }) + (match wanted.kitty {
        Some(palette) => seq![Setting { field: Field::Kitty, value: palette@ }],
        None => Seq::empty(),
    })
}

/// Adds the change of one setting to `changes` where its current value is
/// not the wanted one.
fn push_if_differs<'a>(
    changes: &mut Vec<Change<'a>>,
    field: Field,
    current: &str,
    wanted: &'a str,
)
    ensures
        settings_of(final(changes)@) == settings_of(old(changes)@) + change_if_differs(
            field,
            current@,
            wanted@,
        ),
{
    let ghost before = changes@;
    if !same_text(current, wanted) {
        changes.push(Change { field, value: wanted });
        assert(settings_of(changes@) =~= settings_of(before) + change_if_differs(
            field,
            current@,
            wanted@,
        ));
    } else {
        assert(settings_of(changes@) =~= settings_of(before) + change_if_differs(
            field,
            current@,
            wanted@,
        ));
    }
}

/// Lists the changes that turn the current appearance into the wanted
/// one. `same_wallpaper` says whether the two wallpaper paths name the
/// same picture.
pub fn plan_changes<'a>(current: &ThemeSpec, wanted: &'a ThemeSpec, same_wallpaper: bool) -> (changes:
    Vec<Change<'a>>)
    ensures
        settings_of(changes@) == planned_changes(*current, *wanted, same_wallpaper),
{
    let mut changes: Vec<Change<'a>> = Vec::new();
    assert(settings_of(changes@) =~= Seq::empty());
    push_if_differs(&mut changes, Field::Desktop, current.desktop.as_str(), wanted.desktop.as_str());
    push_if_differs(&mut changes, Field::Mouse, current.mouse.as_str(), wanted.mouse.as_str());
    push_if_differs(
        &mut changes,
        Field::Controls,
        current.controls.as_str(),
        wanted.controls.as_str(),
    );
    push_if_differs(&mut changes, Field::Icons, current.icons.as_str(), wanted.icons.as_str());
    push_if_differs(&mut changes, Field::Borders, current.borders.as_str(), wanted.borders.as_str());
    let ghost settings = settings_of(changes@);
    if !same_wallpaper {
        changes.push(Change { field: Field::Wallpaper, value: wanted.wallpaper.as_str() });
        assert(settings_of(changes@) =~= settings + seq![
            Setting { field: Field::Wallpaper, value: wanted.wallpaper@ },
        ]);
    } else {
        assert(settings_of(changes@) =~= settings + Seq::<Setting>::empty());
    }
    let ghost settings = settings_of(changes@);
    if let Some(palette) = &wanted.kitty {
        changes.push(Change { field: Field::Kitty, value: palette.as_str() });
        assert(settings_of(changes@) =~= settings + seq![
            Setting { field: Field::Kitty, value: palette@ },
        ]);
    } else {
        assert(settings_of(changes@) =~= settings + Seq::<Setting>::empty());
    }
    changes
}

/// The prefix that marks a wallpaper path as a URI.
pub open spec fn file_scheme() -> Seq<char> {
    "file://"@
}

/// The URI under which a wallpaper is set: the path itself where it
/// already starts with `file://`, else the path behind that prefix.
pub open spec fn wallpaper_uri_text(path: Seq<char>) -> Seq<char> {
    if file_scheme().is_prefix_of(path) {
        path
    } else {
        file_scheme() + path
    }
}

/// Whether `text` starts with `prefix`.
pub fn starts_with(text: &str, prefix: &str) -> (starts: bool)
    ensures
        starts == prefix@.is_prefix_of(text@),
{
    let prefix_len = prefix.unicode_len();
    if text.unicode_len() < prefix_len {
        return false;
    }
    let mut i: usize = 0;
    while i < prefix_len
        invariant
            i <= prefix_len,
            prefix_len == prefix@.len(),
            prefix_len <= text@.len(),
            prefix@.take(i as int) == text@.take(i as int),
        decreases prefix_len - i,
    {
        if prefix.get_char(i) != text.get_char(i) {
            assert(prefix@[i as int] != text@.subrange(0, prefix@.len() as int)[i as int]);
            return false;
        }
        assert(prefix@.take(i + 1) == prefix@.take(i as int).push(prefix@[i as int]));
        assert(text@.take(i + 1) == text@.take(i as int).push(text@[i as int]));
        i += 1;
    }
    assert(prefix@.take(prefix_len as int) == prefix@);
    assert(text@.take(prefix_len as int) == text@.subrange(0, prefix@.len() as int));
    true
}

/// The URI under which the wallpaper at `path` is set.
pub fn wallpaper_uri(path: &str) -> (uri: String)
    ensures
        uri@ == wallpaper_uri_text(path@),
{
    if starts_with(path, "file://") {
        path.to_owned()
    } else {
        let mut uri = "file://".to_owned();
        uri.append(path);
        uri
    }
}

/// `Path`'s `==`: whether two paths are the same, component by component.
/// Two paths written alike are the same; of paths written differently
/// nothing is claimed.
#[verifier::external_body]
fn same_path(a: &str, b: &str) -> (same: bool)
    ensures
        a@ == b@ ==> same,
{
    std::path::Path::new(a) == std::path::Path::new(b)
}

/// What reading one setting gave: its value, or the words of the failure.
pub type Reading = Result<String, String>;

/// What reading the current appearance gave, setting by setting.
#[derive(Debug, PartialEq, Eq)]
pub struct Readings {
    pub desktop: Reading,
    pub mouse: Reading,
    pub controls: Reading,
    pub icons: Reading,
    pub borders: Reading,
    pub wallpaper: Reading,
}

/// The text that stands for a reading: the value read, or, where reading
/// failed, the words of the failure in its place.
pub open spec fn reading_text(reading: Reading) -> Seq<char> {
    match reading {
        Ok(value) => value@,
        Err(words) => words@,
    }
}

/// The text that stands for a reading.
fn reading_or_failure(reading: Reading) -> (text: String)
    ensures
        text@ == reading_text(reading),
{
    match reading {
        Ok(value) => value,
        Err(words) => words,
    }
}

/// The connection to the desktop's settings store.
#[derive(Debug, Clone, PartialEq, Eq)]
pub struct Gsettings {
    dbus_session_bus_address: String,
}

impl Gsettings {
    /// The address of the session bus on which the settings store is
    /// reached.
    pub closed spec fn address(&self) -> Seq<char> {
        self.dbus_session_bus_address@
    }

    /// The connection of the user with the effective user id `euid`.
    pub fn new(euid: u32) -> (gsettings: Gsettings)
        ensures
            gsettings.address() == "unix:path=/run/user/"@ + decimal_text(euid as nat) + "/bus"@,
    {
        let mut address = "unix:path=/run/user/".to_owned();
        let id = render_u32(euid);
        address.append(id.as_str());
        address.append("/bus");
        Gsettings { dbus_session_bus_address: address }
    }

    /// The address of the session bus.
    pub fn dbus_session_bus_address(&self) -> (address: &str)
        ensures
            address@ == self.address(),
    {
        self.dbus_session_bus_address.as_str()
    }

    /// Lists the changes that bring the current appearance to that of
    /// `theme`: those that `plan_changes` lists, the wallpaper being left
    /// alone where the two paths name the same picture, and at any rate
    /// where they are written alike.
    pub fn set_theme<'a>(&self, current: &ThemeSpec, theme: &'a Theme) -> (changes: Vec<
        Change<'a>,
    >)
        ensures
            exists|same_wallpaper: bool|
                (current.wallpaper@ == theme.spec.wallpaper@ ==> same_wallpaper) && settings_of(
                    changes@,
                ) == #[trigger] planned_changes(*current, theme.spec, same_wallpaper),
    {
        let same_wallpaper = same_path(current.wallpaper.as_str(), theme.spec.wallpaper.as_str());
        plan_changes(current, &theme.spec, same_wallpaper)
    }

    /// Puts the readings of the current appearance together. A reading
    /// that failed leaves the words of its failure in place of the value;
    /// the terminal palette cannot be read and is reported as
    /// `<Unsupported>`.
    pub fn get_theme(&self, readings: Readings) -> (spec: ThemeSpec)
        ensures
            spec.desktop@ == reading_text(readings.desktop),
            spec.mouse@ == reading_text(readings.mouse),
            spec.controls@ == reading_text(readings.controls),
            spec.icons@ == reading_text(readings.icons),
            spec.borders@ == reading_text(readings.borders),
            spec.wallpaper@ == reading_text(readings.wallpaper),
            spec.kitty matches Some(palette) && palette@ == "<Unsupported>"@,
    {
        ThemeSpec {
            desktop: reading_or_failure(readings.desktop),
            mouse: reading_or_failure(readings.mouse),
            controls: reading_or_failure(readings.controls),
            icons: reading_or_failure(readings.icons),
            borders: reading_or_failure(readings.borders),
            wallpaper: reading_or_failure(readings.wallpaper),
            kitty: Some("<Unsupported>".to_owned()),
        }
    }
}

} // verus!
