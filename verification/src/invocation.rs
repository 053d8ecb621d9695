//! The command lines that read and change the desktop's settings.

use vstd::prelude::*;
use crate::gsettings::{wallpaper_uri, wallpaper_uri_text, Change, Field, Gsettings, Setting};

verus! {

/// A command line: the mathematical content of an [`Invocation`].
pub struct CommandLine {
    pub program: Seq<char>,
    pub args: Seq<Seq<char>>,
    pub env: Seq<(Seq<char>, Seq<char>)>,
}

/// A program to run, with its arguments and the variables to set in its
/// environment.
#[derive(Debug, Clone, PartialEq, Eq)]
pub struct Invocation {
    pub program: String,
    pub args: Vec<String>,
    pub env: Vec<(String, String)>,
}

/// The texts of a list of strings.
pub open spec fn texts(items: Seq<String>) -> Seq<Seq<char>> {
    Seq::new(items.len(), |i: int| items[i]@)
}

/// The texts of a list of variables and their values.
pub open spec fn variable_texts(items: Seq<(String, String)>) -> Seq<(Seq<char>, Seq<char>)> {
    Seq::new(items.len(), |i: int| (items[i].0@, items[i].1@))
}

impl View for Invocation {
    type V = CommandLine;

    open spec fn view(&self) -> CommandLine {
        CommandLine {
            program: self.program@,
            args: texts(self.args@),
            env: variable_texts(self.env@),
        }
    }
}

/// The schema under which the settings store keeps a setting. The
/// terminal palette is not kept there.
pub open spec fn schema_of(field: Field) -> Seq<char> {
    match field {
        Field::Desktop => "org.cinnamon.theme"@,
        Field::Mouse | Field::Controls | Field::Icons => "org.cinnamon.desktop.interface"@,
        Field::Borders => "org.cinnamon.desktop.wm.preferences"@,
        Field::Wallpaper => "org.cinnamon.desktop.background"@,
        Field::Kitty => Seq::empty(),
    }
}

/// The key under which the settings store keeps a setting.
pub open spec fn key_of(field: Field) -> Seq<char> {
    match field {
        Field::Desktop => "name"@,
        Field::Mouse => "cursor-theme"@,
        Field::Controls => "gtk-theme"@,
        Field::Icons => "icon-theme"@,
        Field::Borders => "theme"@,
        Field::Wallpaper => "picture-uri"@,
        Field::Kitty => Seq::empty(),
    }
}

/// The environment in which the settings store is reached.
pub open spec fn bus_environment(address: Seq<char>) -> Seq<(Seq<char>, Seq<char>)> {
    seq![("DBUS_SESSION_BUS_ADDRESS"@, address)]
}

/// The command line that makes a change. Settings of the store are set
/// with `gsettings set`, the wallpaper under its URI; the terminal palette
/// is set by the terminal's own theme kitten, in all its windows.
pub open spec fn set_command_line(address: Seq<char>, setting: Setting) -> CommandLine {
    match setting.field {
        Field::Kitty => CommandLine {
            program: "kitty"@,
            args: seq!["+kitten"@, "themes"@, "--reload-in=all"@, setting.value],
            env: Seq::empty(),
        },
        Field::Wallpaper => CommandLine {
            program: "gsettings"@,
            args: seq![
                "set"@,
                schema_of(setting.field),
                key_of(setting.field),
                wallpaper_uri_text(setting.value),
            ],
            env: bus_environment(address),
        },
        _ => CommandLine {
            program: "gsettings"@,
            args: seq!["set"@, schema_of(setting.field), key_of(setting.field), setting.value],
            env: bus_environment(address),
        },
    }
}

/// The command line that reads a setting of the store.
pub open spec fn get_command_line(address: Seq<char>, field: Field) -> CommandLine {
    CommandLine {
        program: "gsettings"@,
        args: seq!["get"@, schema_of(field), key_of(field)],
        env: bus_environment(address),
    }
}

/// The schema and the key of a setting of the store.
fn schema_and_key(field: Field) -> (names: (&'static str, &'static str))
    requires
        field != Field::Kitty,
    ensures
        names.0@ == schema_of(field),
        names.1@ == key_of(field),
{
    match field {
        Field::Desktop => ("org.cinnamon.theme", "name"),
        Field::Mouse => ("org.cinnamon.desktop.interface", "cursor-theme"),
        Field::Controls => ("org.cinnamon.desktop.interface", "gtk-theme"),
        Field::Icons => ("org.cinnamon.desktop.interface", "icon-theme"),
        Field::Borders => ("org.cinnamon.desktop.wm.preferences", "theme"),
        _ => ("org.cinnamon.desktop.background", "picture-uri"),
    }
}

impl Gsettings {
    /// The environment in which the settings store is reached.
    fn environment(&self) -> (env: Vec<(String, String)>)
        ensures
            variable_texts(env@) == bus_environment(self.address()),
    {
        let mut env: Vec<(String, String)> = Vec::new();
        env.push(
            ("DBUS_SESSION_BUS_ADDRESS".to_owned(), self.dbus_session_bus_address().to_owned()),
        );
        assert(variable_texts(env@) =~= bus_environment(self.address()));
        env
    }

    /// The command line that makes `change`.
    pub fn set_command(&self, change: &Change<'_>) -> (invocation: Invocation)
        ensures
            invocation@ == set_command_line(self.address(), change@),
    {
        match change.field {
            Field::Kitty => {
                let mut args: Vec<String> = Vec::new();
                args.push("+kitten".to_owned());
                args.push("themes".to_owned());
                args.push("--reload-in=all".to_owned());
                args.push(change.value.to_owned());
                assert(texts(args@) =~= seq![
                    "+kitten"@,
                    "themes"@,
                    "--reload-in=all"@,
                    change.value@,
                ]);
                let env: Vec<(String, String)> = Vec::new();
                assert(variable_texts(env@) =~= Seq::empty());
                Invocation { program: "kitty".to_owned(), args, env }
            },
            field => {
                let (schema, key) = schema_and_key(field);
                let value = if field == Field::Wallpaper {
                    wallpaper_uri(change.value)
                } else {
                    change.value.to_owned()
                };
                let mut args: Vec<String> = Vec::new();
                args.push("set".to_owned());
                args.push(schema.to_owned());
                args.push(key.to_owned());
                args.push(value);
                assert(texts(args@) =~= seq!["set"@, schema_of(field), key_of(field), value@]);
                Invocation { program: "gsettings".to_owned(), args, env: self.environment() }
            },
        }
    }

    /// The command line that reads the setting `field`, for each setting
    /// that the store keeps: none for the terminal palette.
    pub fn get_command(&self, field: Field) -> (invocation: Option<Invocation>)
        ensures
            match invocation {
                Some(invocation) => field != Field::Kitty && invocation@ == get_command_line(
                    self.address(),
                    field,
                ),
                None => field == Field::Kitty,
            },
    {
        if field == Field::Kitty {
            return None;
        }
        let (schema, key) = schema_and_key(field);
        let mut args: Vec<String> = Vec::new();
        args.push("get".to_owned());
        args.push(schema.to_owned());
        args.push(key.to_owned());
        assert(texts(args@) =~= seq!["get"@, schema_of(field), key_of(field)]);
        Some(Invocation { program: "gsettings".to_owned(), args, env: self.environment() })
    }
}

} // verus!
