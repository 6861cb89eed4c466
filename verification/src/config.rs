//! The user configuration document: how the shell is launched and which
//! keystroke triggers which command.

use crate::string_map::StringMap;
use crate::text::{clone_texts, same_texts, texts};
use vstd::prelude::*;

verus! {

/// How the shell is launched. An empty `program` stands for the platform's
/// own default shell.
#[derive(Debug)]
pub struct Shell {
    pub program: String,
    pub args: Vec<String>,
    pub env: StringMap,
    pub bell: bool,
}

/// What a [`Shell`] holds, as plain mathematical values.
pub struct ShellView {
    pub program: Seq<char>,
    pub args: Seq<Seq<char>>,
    pub env: Map<Seq<char>, Seq<char>>,
    pub bell: bool,
}

impl View for Shell {
    type V = ShellView;

    open spec fn view(&self) -> ShellView {
        ShellView {
            program: self.program@,
            args: texts(self.args@),
            env: self.env@,
            bell: self.bell,
        }
    }
}

/// The shell settings that hold where nothing is set: no program, no
/// arguments, no variables, the bell off.
pub open spec fn empty_shell() -> ShellView {
    ShellView {
        program: Seq::<char>::empty(),
        args: Seq::<Seq<char>>::empty(),
        env: Map::<Seq<char>, Seq<char>>::empty(),
        bell: false,
    }
}

impl Default for Shell {
    fn default() -> (shell: Self)
        ensures
            shell@ == empty_shell(),
    {
        let args: Vec<String> = Vec::new();
        let shell = Shell { program: String::new(), args, env: StringMap::new(), bell: false };
        proof {
            assert(texts(shell.args@) =~= Seq::<Seq<char>>::empty());
        }
        shell
    }
}

impl Clone for Shell {
    fn clone(&self) -> (copy: Self)
        ensures
            copy@ == self@,
    {
        Shell {
            program: self.program.clone(),
            args: clone_texts(&self.args),
            env: self.env.clone(),
            bell: self.bell,
        }
    }
}

impl PartialEq for Shell {
    fn eq(&self, other: &Self) -> (equal: bool) {
        self.program == other.program && same_texts(&self.args, &other.args) && self.env
            == other.env && self.bell == other.bell
    }
}

impl vstd::std_specs::cmp::PartialEqSpecImpl for Shell {
    open spec fn obeys_eq_spec() -> bool {
        true
    }

    open spec fn eq_spec(&self, other: &Self) -> bool {
        self@ == other@
    }
}

/// The configuration document as it is kept on disk.
#[derive(Debug)]
pub struct UserConfigFS {
    pub shell: Shell,
    pub keymaps: StringMap,
}

/// What a [`UserConfigFS`] holds, as plain mathematical values.
pub struct UserConfigView {
    pub shell: ShellView,
    pub keymaps: Map<Seq<char>, Seq<char>>,
}

impl View for UserConfigFS {
    type V = UserConfigView;

    open spec fn view(&self) -> UserConfigView {
        UserConfigView { shell: self.shell@, keymaps: self.keymaps@ }
    }
}

impl Default for UserConfigFS {
    /// The document that holds nothing: the empty shell settings and no
    /// key binding.
    fn default() -> (config: Self)
        ensures
            config@ == (UserConfigView {
                shell: empty_shell(),
                keymaps: Map::<Seq<char>, Seq<char>>::empty(),
            }),
    {
        UserConfigFS { shell: Shell::default(), keymaps: StringMap::new() }
    }
}

impl Clone for UserConfigFS {
    fn clone(&self) -> (copy: Self)
        ensures
            copy@ == self@,
    {
        UserConfigFS { shell: self.shell.clone(), keymaps: self.keymaps.clone() }
    }
}

impl PartialEq for UserConfigFS {
    fn eq(&self, other: &Self) -> (equal: bool) {
        self.shell == other.shell && self.keymaps == other.keymaps
    }
}

impl vstd::std_specs::cmp::PartialEqSpecImpl for UserConfigFS {
    open spec fn obeys_eq_spec() -> bool {
        true
    }

    open spec fn eq_spec(&self, other: &Self) -> bool {
        self@ == other@
    }
}

/// One key binding as the interface shows it: a command and its keystroke.
#[derive(Debug)]
pub struct KeyCommandMap {
    pub command_name: String,
    pub key_combo: String,
}

impl View for KeyCommandMap {
    type V = (Seq<char>, Seq<char>);

    open spec fn view(&self) -> (Seq<char>, Seq<char>) {
        (self.command_name@, self.key_combo@)
    }
}

impl PartialEq for KeyCommandMap {
    fn eq(&self, other: &Self) -> (equal: bool) {
        self.command_name == other.command_name && self.key_combo == other.key_combo
    }
}

impl vstd::std_specs::cmp::PartialEqSpecImpl for KeyCommandMap {
    open spec fn obeys_eq_spec() -> bool {
        true
    }

    open spec fn eq_spec(&self, other: &Self) -> bool {
        self@ == other@
    }
}

/// Whether `list` shows `keymaps` binding by binding: one item for each
/// name, in the order of the names, with the keystroke bound to it.
pub open spec fn lists_bindings(list: Seq<KeyCommandMap>, keymaps: StringMap) -> bool {
    &&& list.len() == keymaps.keys().len()
    &&& forall|i: int|
        0 <= i < list.len() ==> {
            &&& (#[trigger] list[i]).command_name@ == keymaps.keys()[i]
            &&& keymaps@.contains_key(keymaps.keys()[i])
            &&& list[i].key_combo@ == keymaps@[keymaps.keys()[i]]
        }
}

/// The bindings of `h_map` as a list, one item for each bound name.
pub fn key_map_to_vector(h_map: StringMap) -> (list: Vec<KeyCommandMap>)
    ensures
        lists_bindings(list@, h_map),
        h_map.keys_match_view(),
{
    let count = h_map.len();
    let mut list: Vec<KeyCommandMap> = Vec::new();
    let mut i: usize = 0;
    while i < count
        invariant
            i <= count,
            count == h_map.keys().len(),
            list@.len() == i,
            forall|j: int|
                0 <= j < i ==> {
                    &&& (#[trigger] list@[j]).command_name@ == h_map.keys()[j]
                    &&& h_map@.contains_key(h_map.keys()[j])
                    &&& list@[j].key_combo@ == h_map@[h_map.keys()[j]]
                },
        decreases count - i,
    {
        let command_name = h_map.key_at(i).clone();
        let key_combo = h_map.value_at(i).clone();
        list.push(KeyCommandMap { command_name, key_combo });
        i += 1;
    }
    list
}

/// The configuration document as the interface receives it: the key
/// bindings as a list.
#[derive(Debug)]
pub struct UserConfigJS {
    pub shell: Shell,
    pub keymaps: Vec<KeyCommandMap>,
}

impl Default for UserConfigJS {
    /// The document that holds nothing: the empty shell settings and no
    /// key binding.
    fn default() -> (config: Self)
        ensures
            config.shell@ == empty_shell(),
            config.keymaps@.len() == 0,
    {
        UserConfigJS { shell: Shell::default(), keymaps: Vec::new() }
    }
}

impl UserConfigJS {
    /// The interface's form of `document`: the same shell settings, and the
    /// key bindings listed one by one.
    pub fn from_document(document: &UserConfigFS) -> (shown: Self)
        ensures
            shown.shell@ == document.shell@,
            lists_bindings(shown.keymaps@, document.keymaps),
    {
        let keymaps = document.keymaps.clone();
        let list = key_map_to_vector(keymaps);
        UserConfigJS { shell: document.shell.clone(), keymaps: list }
    }
}

/// The key bindings of a fresh configuration.
pub open spec fn default_keymaps() -> Map<Seq<char>, Seq<char>> {
    Map::<Seq<char>, Seq<char>>::empty().insert("edit:copy"@, "ctrl+shift+c"@).insert(
        "edit:paste"@,
        "ctrl+shift+v"@,
    ).insert("edit:select_all"@, "ctrl+shift+a"@).insert("edit:interrupt"@, "ctrl+c"@).insert(
        "window:new_tab"@,
        "ctrl+shift+t"@,
    ).insert("window:next_tab"@, "ctrl+shift+ArrowRight"@).insert(
        "window:prev_tab"@,
        "ctrl+shift+ArrowLeft"@,
    ).insert("window:split_right"@, "ctrl+shift+d"@).insert("window:split_down"@, "ctrl+shift+e"@)
}

/// The fresh configuration: the platform's default shell with no arguments
/// and no environment of its own, the bell on, and the starter key bindings.
pub open spec fn default_document() -> UserConfigView {
    UserConfigView {
        shell: ShellView {
            program: Seq::<char>::empty(),
            args: Seq::<Seq<char>>::empty(),
            env: Map::<Seq<char>, Seq<char>>::empty(),
            bell: true,
        },
        keymaps: default_keymaps(),
    }
}

/// Builds the fresh configuration.
pub fn generate_default_user_config() -> (config: UserConfigFS)
    ensures
        config@ == default_document(),
{
    let mut keymaps = StringMap::new();
    keymaps.insert("edit:copy".to_owned(), "ctrl+shift+c".to_owned());
    keymaps.insert("edit:paste".to_owned(), "ctrl+shift+v".to_owned());
    keymaps.insert("edit:select_all".to_owned(), "ctrl+shift+a".to_owned());
    keymaps.insert("edit:interrupt".to_owned(), "ctrl+c".to_owned());
    keymaps.insert("window:new_tab".to_owned(), "ctrl+shift+t".to_owned());
    keymaps.insert("window:next_tab".to_owned(), "ctrl+shift+ArrowRight".to_owned());
    keymaps.insert("window:prev_tab".to_owned(), "ctrl+shift+ArrowLeft".to_owned());
    keymaps.insert("window:split_right".to_owned(), "ctrl+shift+d".to_owned());
    keymaps.insert("window:split_down".to_owned(), "ctrl+shift+e".to_owned());
    let args: Vec<String> = Vec::new();
    let config = UserConfigFS {
        shell: Shell { program: String::new(), args, env: StringMap::new(), bell: true },
        keymaps,
    };
    proof {
        assert(texts(config.shell.args@) =~= Seq::<Seq<char>>::empty());
    }
    config
}

} // verus!
