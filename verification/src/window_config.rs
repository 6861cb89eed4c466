//! The configuration document in the form that also records the size of the
//! window.

use crate::platform::Platform;
use crate::string_map::StringMap;
use crate::text::texts;
use vstd::prelude::*;

verus! {

/// The height of the window of a fresh configuration.
pub const DEFAULT_WINDOW_HEIGHT: i32 = 390;

/// The width of the window of a fresh configuration.
pub const DEFAULT_WINDOW_WIDTH: i32 = 540;

/// A height and a width.
#[derive(Clone, Copy, Debug, PartialEq, Eq, Structural)]
pub struct Dimensions {
    pub height: i32,
    pub width: i32,
}

impl Default for Dimensions {
    fn default() -> (size: Self)
        ensures
            size == (Dimensions { height: 0, width: 0 }),
    {
        Dimensions { height: 0, width: 0 }
    }
}

/// The settings of the window.
#[derive(Clone, Copy, Debug, PartialEq, Eq, Structural)]
pub struct Window {
    pub size: Dimensions,
}

impl Default for Window {
    fn default() -> (window: Self)
        ensures
            window == (Window { size: Dimensions { height: 0, width: 0 } }),
    {
        Window { size: Dimensions::default() }
    }
}

/// How the shell is launched, with the environment as a list of entries.
#[derive(Debug)]
pub struct Shell {
    pub program: String,
    pub args: Vec<String>,
    pub env: Vec<String>,
    pub bell: bool,
}

/// What a [`Shell`] holds, as plain mathematical values.
pub struct ShellView {
    pub program: Seq<char>,
    pub args: Seq<Seq<char>>,
    pub env: Seq<Seq<char>>,
    pub bell: bool,
}

impl View for Shell {
    type V = ShellView;

    open spec fn view(&self) -> ShellView {
        ShellView {
            program: self.program@,
            args: texts(self.args@),
            env: texts(self.env@),
            bell: self.bell,
        }
    }
}

/// The shell settings that hold where nothing is set.
pub open spec fn empty_shell() -> ShellView {
    ShellView {
        program: Seq::<char>::empty(),
        args: Seq::<Seq<char>>::empty(),
        env: Seq::<Seq<char>>::empty(),
        bell: false,
    }
}

impl Default for Shell {
    fn default() -> (shell: Self)
        ensures
            shell@ == empty_shell(),
    {
        let args: Vec<String> = Vec::new();
        let env: Vec<String> = Vec::new();
        let shell = Shell { program: String::new(), args, env, bell: false };
        proof {
            assert(texts(shell.args@) =~= Seq::<Seq<char>>::empty());
            assert(texts(shell.env@) =~= Seq::<Seq<char>>::empty());
        }
        shell
    }
}

/// The configuration document with the window's settings.
#[derive(Debug)]
pub struct UserConfig {
    pub window: Window,
    pub shell: Shell,
    pub keymaps: StringMap,
}

/// What a [`UserConfig`] holds, as plain mathematical values.
pub struct WindowedConfigView {
    pub window: Window,
    pub shell: ShellView,
    pub keymaps: Map<Seq<char>, Seq<char>>,
}

impl View for UserConfig {
    type V = WindowedConfigView;

    open spec fn view(&self) -> WindowedConfigView {
        WindowedConfigView { window: self.window, shell: self.shell@, keymaps: self.keymaps@ }
    }
}

impl Default for UserConfig {
    /// The document that holds nothing: a window of no size, the empty
    /// shell settings and no key binding.
    fn default() -> (config: Self)
        ensures
            config@ == (WindowedConfigView {
                window: Window { size: Dimensions { height: 0, width: 0 } },
                shell: empty_shell(),
                keymaps: Map::<Seq<char>, Seq<char>>::empty(),
            }),
    {
        UserConfig { window: Window::default(), shell: Shell::default(), keymaps: StringMap::new() }
    }
}

/// The fresh windowed configuration for `platform`: a window of the default
/// size, the platform's shell as a login shell with the bell on and no
/// environment entry, and the bindings for copy and paste.
pub open spec fn default_windowed_document(platform: Platform) -> WindowedConfigView {
    WindowedConfigView {
        window: Window {
            size: Dimensions { height: DEFAULT_WINDOW_HEIGHT, width: DEFAULT_WINDOW_WIDTH },
        },
        shell: ShellView {
            program: platform.shell_text(),
            args: seq!["--login"@],
            env: Seq::<Seq<char>>::empty(),
            bell: true,
        },
        keymaps: Map::<Seq<char>, Seq<char>>::empty().insert("edit:copy"@, "ctrl+shift+c"@).insert(
            "edit:paste"@,
            "ctrl+shift+v"@,
        ),
    }
}

/// Builds the fresh windowed configuration for `platform`.
pub fn generate_default(platform: Platform) -> (config: UserConfig)
    ensures
        config@ == default_windowed_document(platform),
{
    let mut keymaps = StringMap::new();
    keymaps.insert("edit:copy".to_owned(), "ctrl+shift+c".to_owned());
    keymaps.insert("edit:paste".to_owned(), "ctrl+shift+v".to_owned());
    let program = match platform {
        Platform::Windows => "powershell.exe".to_owned(),
        _ => "bash".to_owned(),
    };
    let mut args: Vec<String> = Vec::new();
    args.push("--login".to_owned());
    let env: Vec<String> = Vec::new();
    let config = UserConfig {
        window: Window {
            size: Dimensions { height: DEFAULT_WINDOW_HEIGHT, width: DEFAULT_WINDOW_WIDTH },
        },
        shell: Shell { program, args, env, bell: true },
        keymaps,
    };
    proof {
        assert(texts(config.shell.args@) =~= seq!["--login"@]);
        assert(texts(config.shell.env@) =~= Seq::<Seq<char>>::empty());
    }
    config
}

} // verus!
