//! The settings pages that manage game clients: the client editor of the
//! settings window and the client table of the setup wizard.
use vstd::prelude::*;

use crate::commands::same_but_clients;
use crate::env::EnvVars;
use crate::format::{decimal, usize_decimal};
use crate::settings::{
    selection_after_remove, selection_valid, AlembicSettings, ClientConfigType, InjectConfig, LaunchCommand,
    WindowsClientConfig, WineClientConfig,
};
use crate::widgets::dlls::client_dlls_set;
use crate::text::{chars_less, push_str, str_eq, str_less, string_of};

verus! {

/// The name of a client made with "New Client".
pub open spec fn new_client_name() -> Seq<char> {
    "New Client"@
}

/// The install path of a client made with "New Client".
pub open spec fn new_client_path() -> Seq<char> {
    "C:\\Turbine\\Asheron's Call\\acclient.exe"@
}

/// `c` is the Wine client that the editor makes for `name` at `path`: run
/// by `/usr/local/bin/wine64` with no arguments, `WINEPREFIX` set to a
/// placeholder, and no DLLs.
pub open spec fn is_default_wine_client(c: ClientConfigType, name: Seq<char>, path: Seq<char>) -> bool {
    match c {
        ClientConfigType::Wine(w) => {
            &&& w.name@ == name
            &&& w.client_path@ == path
            &&& w.launch_command.program@ == "/usr/local/bin/wine64"@
            &&& w.launch_command.args@.len() == 0
            &&& w.launch_command.env.map() == map!["WINEPREFIX"@ => "/path/to/prefix"@]
            &&& w.dlls@.len() == 0
            &&& w.selected_dll is None
        },
        ClientConfigType::Windows(_) => false,
    }
}

/// `c` is the Windows client that the editor makes for `name` at `path`,
/// with no DLLs.
pub open spec fn is_default_windows_client(c: ClientConfigType, name: Seq<char>, path: Seq<char>) -> bool {
    match c {
        ClientConfigType::Windows(w) => {
            &&& w.name@ == name
            &&& w.client_path@ == path
            &&& w.dlls@.len() == 0
            &&& w.selected_dll is None
        },
        ClientConfigType::Wine(_) => false,
    }
}

/// The Wine client that the editor makes for `name` at `path`.
pub fn default_wine_client(name: String, path: String) -> (c: ClientConfigType)
    ensures
        is_default_wine_client(c, name@, path@),
{
    let mut env = EnvVars::new();
    env.insert(string_of("WINEPREFIX"), string_of("/path/to/prefix"));
    assert(env.map() =~= map!["WINEPREFIX"@ => "/path/to/prefix"@]);
    ClientConfigType::Wine(
        WineClientConfig {
            name,
            client_path: path,
            launch_command: LaunchCommand {
                program: string_of("/usr/local/bin/wine64"),
                args: Vec::new(),
                env,
            },
            dlls: Vec::new(),
            selected_dll: None,
        },
    )
}

/// The Windows client that the editor makes for `name` at `path`.
pub fn default_windows_client(name: String, path: String) -> (c: ClientConfigType)
    ensures
        is_default_windows_client(c, name@, path@),
{
    ClientConfigType::Windows(
        WindowsClientConfig { name, client_path: path, dlls: Vec::new(), selected_dll: None },
    )
}

/// The settings equal `old` but that the client at `idx` is `c`.
pub open spec fn only_client_set(new: AlembicSettings, old: AlembicSettings, idx: int, c: ClientConfigType) -> bool {
    &&& new.clients@ == old.clients@.update(idx, c)
    &&& new.selected_client == old.selected_client
    &&& new.is_configured == old.is_configured
    &&& same_but_clients(new, old)
}

/// Replacing one client by one whose DLL selection indexes its DLLs (or that
/// keeps the old selection over as many DLLs) keeps the settings'
/// selections valid.
pub proof fn lemma_client_replaced_valid(new: AlembicSettings, old: AlembicSettings, idx: int)
    requires
        0 <= idx < old.clients@.len(),
        new.clients@ == old.clients@.update(idx, new.clients@[idx]),
        new.selected_client == old.selected_client,
        same_but_clients(new, old),
        old.selections_valid(),
        selection_valid(new.clients@[idx].selected_dll_of(), new.clients@[idx].dlls_of().len()) || (
        new.clients@[idx].selected_dll_of() == old.clients@[idx].selected_dll_of()
            && new.clients@[idx].dlls_of().len() == old.clients@[idx].dlls_of().len()),
    ensures
        new.selections_valid(),
{
    assert(selection_valid(old.clients@[idx].selected_dll_of(), old.clients@[idx].dlls_of().len()));
    assert forall|i: int| 0 <= i < new.clients@.len() implies selection_valid(
        #[trigger] new.clients@[i].selected_dll_of(),
        new.clients@[i].dlls_of().len(),
    ) by {
        if i != idx {
            assert(new.clients@[i] == old.clients@[i]);
        }
    }
}

/// The environment `m` after its variable `from` is renamed `to`, rebuilt in
/// the order of the old names: when `to` is another variable's name and
/// `from` comes before it, that variable keeps its value and `from` is gone;
/// otherwise `to` takes `from`'s value.
pub open spec fn renamed_env(m: Map<Seq<char>, Seq<char>>, from: Seq<char>, to: Seq<char>) -> Map<
    Seq<char>,
    Seq<char>,
> {
    if m.dom().contains(to) && from != to && chars_less(from, to) {
        m.remove(from)
    } else {
        m.remove(from).insert(to, m[from])
    }
}

/// The name of the placeholder variable that "+Add Env Var" adds to an
/// environment of `n` variables: `VAR_n`.
pub open spec fn placeholder_var(n: nat) -> Seq<char> {
    "VAR_"@ + decimal(n)
}

/// The client editor of the settings window: a list of clients and the
/// fields of the selected one.
pub struct SettingsClientsTab {
    pub selected_index: Option<usize>,
}

impl SettingsClientsTab {
    /// No client selected.
    pub fn new() -> (r: SettingsClientsTab)
        ensures
            r.selected_index is None,
    {
        SettingsClientsTab { selected_index: None }
    }

    /// "New Client": appends the default Wine client and selects it.
    pub fn new_client(&mut self, settings: &mut AlembicSettings)
        requires
            old(settings).clients@.len() < usize::MAX,
        ensures
            old(settings).selections_valid() ==> final(settings).selections_valid(),
            final(settings).clients@.len() == old(settings).clients@.len() + 1,
            final(settings).clients@.take(old(settings).clients@.len() as int) == old(settings).clients@,
            is_default_wine_client(
                final(settings).clients@.last(),
                new_client_name(),
                new_client_path(),
            ),
            final(settings).selected_client == old(settings).selected_client,
            final(settings).is_configured == old(settings).is_configured,
            same_but_clients(*final(settings), *old(settings)),
            final(self).selected_index == Some(old(settings).clients@.len() as usize),
    {
        let c = default_wine_client(
            string_of("New Client"),
            string_of("C:\\Turbine\\Asheron's Call\\acclient.exe"),
        );
        settings.clients.push(c);
        assert(settings.clients@.take(old(settings).clients@.len() as int) =~= old(settings).clients@);
        proof {
            if old(settings).selections_valid() {
                assert forall|i: int| 0 <= i < settings.clients@.len() implies selection_valid(
                    #[trigger] settings.clients@[i].selected_dll_of(),
                    settings.clients@[i].dlls_of().len(),
                ) by {
                    if i < old(settings).clients@.len() {
                        assert(settings.clients@[i] == old(settings).clients@[i]);
                    }
                }
            }
        }
        self.selected_index = Some(settings.clients.len() - 1);
    }

    /// Keeps the selection within a non-empty list of `settings`' clients:
    /// a selection past the end moves to the last client.
    pub fn clamp_selection(&mut self, settings: &AlembicSettings)
        ensures
            settings.clients@.len() > 0 ==> selection_valid(final(self).selected_index, settings.clients@.len()),
            final(self).selected_index == match old(self).selected_index {
                Some(i) => if settings.clients@.len() > 0 && i >= settings.clients@.len() {
                    Some((settings.clients@.len() - 1) as usize)
                } else {
                    Some(i)
                },
                None => None,
            },
    {
        if let Some(i) = self.selected_index {
            if settings.clients.len() > 0 && i >= settings.clients.len() {
                self.selected_index = Some(settings.clients.len() - 1);
            }
        }
    }

    /// The label of client `i` in the list: `name (Wine)` or `name (Windows)`.
    pub fn list_label(settings: &AlembicSettings, i: usize) -> (r: String)
        requires
            i < settings.clients@.len(),
        ensures
            r@ == settings.clients@[i as int].name_of() + if settings.clients@[i as int] is Wine {
                " (Wine)"@
            } else {
                " (Windows)"@
            },
    {
        let c = &settings.clients[i];
        let mut r = c.name().clone();
        if c.is_wine() {
            push_str(&mut r, " (Wine)");
        } else {
            push_str(&mut r, " (Windows)");
        }
        r
    }

    /// The type selector: turns client `idx` into a Wine client (`wine`) or
    /// a Windows one, keeping its name and path and dropping its launch
    /// command, DLLs and DLL selection. Nothing changes if it already has
    /// that type. Tells whether it changed.
    pub fn set_client_type(settings: &mut AlembicSettings, idx: usize, wine: bool) -> (changed: bool)
        requires
            idx < old(settings).clients@.len(),
        ensures
            old(settings).selections_valid() ==> final(settings).selections_valid(),
            changed == (wine != (old(settings).clients@[idx as int] is Wine)),
            !changed ==> *final(settings) == *old(settings),
            changed ==> final(settings).clients@.len() == old(settings).clients@.len(),
            changed ==> forall|j: int|
                0 <= j < old(settings).clients@.len() && j != idx ==> #[trigger] final(settings).clients@[j]
                    == old(settings).clients@[j],
            changed && wine ==> is_default_wine_client(
                final(settings).clients@[idx as int],
                old(settings).clients@[idx as int].name_of(),
                old(settings).clients@[idx as int].client_path_of(),
            ),
            changed && !wine ==> is_default_windows_client(
                final(settings).clients@[idx as int],
                old(settings).clients@[idx as int].name_of(),
                old(settings).clients@[idx as int].client_path_of(),
            ),
            changed ==> final(settings).selected_client == old(settings).selected_client,
            changed ==> final(settings).is_configured == old(settings).is_configured,
            changed ==> same_but_clients(*final(settings), *old(settings)),
    {
        let current = settings.clients[idx].is_wine();
        if wine == current {
            return false;
        }
        let name = settings.clients[idx].name().clone();
        let path = settings.clients[idx].install_path().clone();
        let c = if wine {
            default_wine_client(name, path)
        } else {
            default_windows_client(name, path)
        };
        settings.clients.set(idx, c);
        proof {
            if old(settings).selections_valid() {
                lemma_client_replaced_valid(*settings, *old(settings), idx as int);
            }
        }
        true
    }

    /// The name field of client `idx`.
    pub fn rename_client(settings: &mut AlembicSettings, idx: usize, name: String)
        requires
            idx < old(settings).clients@.len(),
        ensures
            old(settings).selections_valid() ==> final(settings).selections_valid(),
            final(settings).clients@.len() == old(settings).clients@.len(),
            forall|j: int|
                0 <= j < old(settings).clients@.len() && j != idx ==> #[trigger] final(settings).clients@[j]
                    == old(settings).clients@[j],
            final(settings).clients@[idx as int] == match old(settings).clients@[idx as int] {
                ClientConfigType::Windows(c) => ClientConfigType::Windows(
                    WindowsClientConfig { name: name, ..c },
                ),
                ClientConfigType::Wine(c) => ClientConfigType::Wine(WineClientConfig { name: name, ..c }),
            },
            final(settings).selected_client == old(settings).selected_client,
            final(settings).is_configured == old(settings).is_configured,
            same_but_clients(*final(settings), *old(settings)),
    {
        settings.clients[idx].set_name(name);
        proof {
            if old(settings).selections_valid() {
                lemma_client_replaced_valid(*settings, *old(settings), idx as int);
            }
        }
    }

    /// The client path field of client `idx`.
    pub fn set_client_path(settings: &mut AlembicSettings, idx: usize, path: String)
        requires
            idx < old(settings).clients@.len(),
        ensures
            old(settings).selections_valid() ==> final(settings).selections_valid(),
            final(settings).clients@.len() == old(settings).clients@.len(),
            forall|j: int|
                0 <= j < old(settings).clients@.len() && j != idx ==> #[trigger] final(settings).clients@[j]
                    == old(settings).clients@[j],
            final(settings).clients@[idx as int] == match old(settings).clients@[idx as int] {
                ClientConfigType::Windows(c) => ClientConfigType::Windows(
                    WindowsClientConfig { client_path: path, ..c },
                ),
                ClientConfigType::Wine(c) => ClientConfigType::Wine(
                    WineClientConfig { client_path: path, ..c },
                ),
            },
            final(settings).selected_client == old(settings).selected_client,
            final(settings).is_configured == old(settings).is_configured,
            same_but_clients(*final(settings), *old(settings)),
    {
        settings.clients[idx].set_client_path(path);
        proof {
            if old(settings).selections_valid() {
                lemma_client_replaced_valid(*settings, *old(settings), idx as int);
            }
        }
    }

    /// "+Add Env Var": adds the variable `VAR_n`, `n` being the number of
    /// variables, with an empty value, to Wine client `idx` (replacing a
    /// variable of that name). Does nothing to a Windows client.
    pub fn add_env_var(settings: &mut AlembicSettings, idx: usize) -> (r: bool)
        requires
            idx < old(settings).clients@.len(),
        ensures
            old(settings).selections_valid() ==> final(settings).selections_valid(),
            r == (old(settings).clients@[idx as int] is Wine),
            !r ==> *final(settings) == *old(settings),
            r ==> final(settings).clients@.len() == old(settings).clients@.len(),
            r ==> forall|j: int|
                0 <= j < old(settings).clients@.len() && j != idx ==> #[trigger] final(settings).clients@[j]
                    == old(settings).clients@[j],
            r ==> final(settings).clients@[idx as int].same_but_env(old(settings).clients@[idx as int]),
            r ==> final(settings).clients@[idx as int].launch_command_of().unwrap().env.map() == ({
                let m = old(settings).clients@[idx as int].launch_command_of().unwrap().env.map();
                m.insert(placeholder_var(m.dom().len()), Seq::<char>::empty())
            }),
            final(settings).selected_client == old(settings).selected_client,
            final(settings).is_configured == old(settings).is_configured,
            same_but_clients(*final(settings), *old(settings)),
    {
        let n: usize = match &settings.clients[idx] {
            ClientConfigType::Wine(c) => c.launch_command.env.len(),
            ClientConfigType::Windows(_) => {
                return false;
            },
        };
        let mut key = string_of("VAR_");
        let digits = usize_decimal(n);
        push_str(&mut key, digits.as_str());
        let empty = String::new();
        let r = settings.clients[idx].set_env_var(key, empty);
        proof {
            if old(settings).selections_valid() {
                lemma_client_replaced_valid(*settings, *old(settings), idx as int);
            }
        }
        r
    }

    /// The program field of Wine client `idx`'s launch command.
    pub fn set_program(settings: &mut AlembicSettings, idx: usize, program: String) -> (r: bool)
        requires
            idx < old(settings).clients@.len(),
        ensures
            old(settings).selections_valid() ==> final(settings).selections_valid(),
            r == (old(settings).clients@[idx as int] is Wine),
            only_client_set(
                *final(settings),
                *old(settings),
                idx as int,
                match old(settings).clients@[idx as int] {
                    ClientConfigType::Windows(c) => ClientConfigType::Windows(c),
                    ClientConfigType::Wine(c) => ClientConfigType::Wine(
                        WineClientConfig {
                            launch_command: LaunchCommand { program: program, ..c.launch_command },
                            ..c
                        },
                    ),
                },
            ),
    {
        let r = settings.clients[idx].set_program(program);
        assert(settings.clients@ =~= old(settings).clients@.update(idx as int, settings.clients@[idx as int]));
        proof {
            if old(settings).selections_valid() {
                lemma_client_replaced_valid(*settings, *old(settings), idx as int);
            }
        }
        r
    }

    /// "+Add Argument": appends an empty argument to Wine client `idx`.
    pub fn add_argument(settings: &mut AlembicSettings, idx: usize) -> (r: bool)
        requires
            idx < old(settings).clients@.len(),
        ensures
            old(settings).selections_valid() ==> final(settings).selections_valid(),
            r == (old(settings).clients@[idx as int] is Wine),
            only_client_set(*final(settings), *old(settings), idx as int, final(settings).clients@[idx as int]),
            !r ==> final(settings).clients@[idx as int] == old(settings).clients@[idx as int],
            r ==> final(settings).clients@[idx as int].same_but_args(old(settings).clients@[idx as int]),
            r ==> final(settings).clients@[idx as int].launch_command_of().unwrap().args@.drop_last()
                == old(settings).clients@[idx as int].launch_command_of().unwrap().args@,
            r ==> final(settings).clients@[idx as int].launch_command_of().unwrap().args@.len() > 0,
            r ==> final(settings).clients@[idx as int].launch_command_of().unwrap().args@.last()@
                == Seq::<char>::empty(),
    {
        let r = settings.clients[idx].push_arg(String::new());
        assert(settings.clients@ =~= old(settings).clients@.update(idx as int, settings.clients@[idx as int]));
        proof {
            if old(settings).selections_valid() {
                lemma_client_replaced_valid(*settings, *old(settings), idx as int);
            }
        }
        r
    }

    /// "x" beside argument `arg` of Wine client `idx`: removes it.
    pub fn remove_argument(settings: &mut AlembicSettings, idx: usize, arg: usize) -> (r: bool)
        requires
            idx < old(settings).clients@.len(),
        ensures
            old(settings).selections_valid() ==> final(settings).selections_valid(),
            r == (old(settings).clients@[idx as int] is Wine && arg < old(
                settings,
            ).clients@[idx as int].launch_command_of().unwrap().args@.len()),
            only_client_set(*final(settings), *old(settings), idx as int, final(settings).clients@[idx as int]),
            !r ==> final(settings).clients@[idx as int] == old(settings).clients@[idx as int],
            r ==> final(settings).clients@[idx as int].same_but_args(old(settings).clients@[idx as int]),
            r ==> final(settings).clients@[idx as int].launch_command_of().unwrap().args@ == old(
                settings,
            ).clients@[idx as int].launch_command_of().unwrap().args@.remove(arg as int),
    {
        let r = settings.clients[idx].remove_arg(arg);
        assert(settings.clients@ =~= old(settings).clients@.update(idx as int, settings.clients@[idx as int]));
        proof {
            if old(settings).selections_valid() {
                lemma_client_replaced_valid(*settings, *old(settings), idx as int);
            }
        }
        r
    }

    /// Editing the value of variable `key` of Wine client `idx`.
    pub fn set_env_value(settings: &mut AlembicSettings, idx: usize, key: String, value: String) -> (r: bool)
        requires
            idx < old(settings).clients@.len(),
        ensures
            old(settings).selections_valid() ==> final(settings).selections_valid(),
            r == (old(settings).clients@[idx as int] is Wine),
            only_client_set(*final(settings), *old(settings), idx as int, final(settings).clients@[idx as int]),
            !r ==> final(settings).clients@[idx as int] == old(settings).clients@[idx as int],
            r ==> final(settings).clients@[idx as int].same_but_env(old(settings).clients@[idx as int]),
            r ==> final(settings).clients@[idx as int].launch_command_of().unwrap().env.map() == old(
                settings,
            ).clients@[idx as int].launch_command_of().unwrap().env.map().insert(key@, value@),
    {
        let r = settings.clients[idx].set_env_var(key, value);
        assert(settings.clients@ =~= old(settings).clients@.update(idx as int, settings.clients@[idx as int]));
        proof {
            if old(settings).selections_valid() {
                lemma_client_replaced_valid(*settings, *old(settings), idx as int);
            }
        }
        r
    }

    /// "x" beside variable `key` of Wine client `idx`: removes it.
    pub fn remove_env_var(settings: &mut AlembicSettings, idx: usize, key: &String) -> (r: bool)
        requires
            idx < old(settings).clients@.len(),
        ensures
            old(settings).selections_valid() ==> final(settings).selections_valid(),
            r == (old(settings).clients@[idx as int] is Wine && old(
                settings,
            ).clients@[idx as int].launch_command_of().unwrap().env.map().dom().contains(key@)),
            only_client_set(*final(settings), *old(settings), idx as int, final(settings).clients@[idx as int]),
            old(settings).clients@[idx as int] is Windows ==> final(settings).clients@[idx as int] == old(
                settings,
            ).clients@[idx as int],
            old(settings).clients@[idx as int] is Wine ==> final(settings).clients@[idx as int].same_but_env(
                old(settings).clients@[idx as int],
            ),
            old(settings).clients@[idx as int] is Wine ==> final(settings).clients@[idx as int].launch_command_of().unwrap().env.map() == old(
                settings,
            ).clients@[idx as int].launch_command_of().unwrap().env.map().remove(key@),
    {
        let r = settings.clients[idx].remove_env_var(key);
        assert(settings.clients@ =~= old(settings).clients@.update(idx as int, settings.clients@[idx as int]));
        proof {
            if old(settings).selections_valid() {
                lemma_client_replaced_valid(*settings, *old(settings), idx as int);
            }
        }
        r
    }

    /// Editing the name of variable `from` of Wine client `idx` to `to`: the
    /// variables are rebuilt in the order of their old names, so when another
    /// variable is already named `to`, whichever of the two comes later in
    /// that order keeps the name: the existing one when `from` comes before
    /// `to`, else the renamed one. Nothing changes if there is no variable
    /// `from`.
    pub fn rename_env_var(settings: &mut AlembicSettings, idx: usize, from: &String, to: String) -> (r: bool)
        requires
            idx < old(settings).clients@.len(),
        ensures
            old(settings).selections_valid() ==> final(settings).selections_valid(),
            r == (old(settings).clients@[idx as int] is Wine && old(
                settings,
            ).clients@[idx as int].launch_command_of().unwrap().env.map().dom().contains(from@)),
            only_client_set(*final(settings), *old(settings), idx as int, final(settings).clients@[idx as int]),
            !r ==> final(settings).clients@[idx as int] == old(settings).clients@[idx as int],
            r ==> final(settings).clients@[idx as int].same_but_env(old(settings).clients@[idx as int]),
            r ==> final(settings).clients@[idx as int].launch_command_of().unwrap().env.map() == ({
                let m = old(settings).clients@[idx as int].launch_command_of().unwrap().env.map();
                renamed_env(m, from@, to@)
            }),
    {
        assert(settings.clients@ =~= settings.clients@.update(idx as int, settings.clients@[idx as int]));
        let value: String = match &settings.clients[idx] {
            ClientConfigType::Wine(c) => match c.launch_command.env.get(from) {
                Some(v) => v.clone(),
                None => {
                    return false;
                },
            },
            ClientConfigType::Windows(_) => {
                return false;
            },
        };
        let to_taken = match &settings.clients[idx] {
            ClientConfigType::Wine(c) => c.launch_command.env.get(&to).is_some(),
            ClientConfigType::Windows(_) => false,
        };
        let keep_existing = to_taken && !str_eq(from.as_str(), to.as_str()) && str_less(
            from.as_str(),
            to.as_str(),
        );
        settings.clients[idx].remove_env_var(from);
        if !keep_existing {
            settings.clients[idx].set_env_var(to, value);
        }
        assert(settings.clients@ =~= old(settings).clients@.update(idx as int, settings.clients@[idx as int]));
        proof {
            if old(settings).selections_valid() {
                lemma_client_replaced_valid(*settings, *old(settings), idx as int);
            }
        }
        true
    }

    /// The path field of row `dll` of the DLL table of client `idx`.
    pub fn set_dll_path(settings: &mut AlembicSettings, idx: usize, dll: usize, path: String) -> (r: bool)
        requires
            idx < old(settings).clients@.len(),
        ensures
            old(settings).selections_valid() ==> final(settings).selections_valid(),
            r == (dll < old(settings).clients@[idx as int].dlls_of().len()),
            !r ==> *final(settings) == *old(settings),
            r ==> client_dlls_set(
                *final(settings),
                *old(settings),
                idx as int,
                old(settings).clients@[idx as int].dlls_of().update(
                    dll as int,
                    InjectConfig { dll_path: path, ..old(settings).clients@[idx as int].dlls_of()[dll as int] },
                ),
                old(settings).clients@[idx as int].selected_dll_of(),
            ),
    {
        if dll < settings.clients[idx].dlls().len() {
            settings.clients[idx].set_dll_path(dll, path);
            proof {
                if old(settings).selections_valid() {
                    lemma_client_replaced_valid(*settings, *old(settings), idx as int);
                }
            }
            true
        } else {
            false
        }
    }

    /// The end of each frame: the settings take the editor's selection, then
    /// "Delete Client", if it was clicked, removes the selected client and
    /// moves the editor's selection to the client now at its place (or the
    /// last one; none if no client is left). The settings' selection is not
    /// adjusted after a deletion.
    pub fn finish_frame(&mut self, settings: &mut AlembicSettings, delete: bool)
        ensures
            selection_valid(old(self).selected_index, old(settings).clients@.len()) ==> selection_valid(
                final(self).selected_index,
                final(settings).clients@.len(),
            ),
            final(settings).selected_client == old(self).selected_index,
            final(settings).is_configured == old(settings).is_configured,
            same_but_clients(*final(settings), *old(settings)),
            match old(self).selected_index {
                Some(i) => if delete && i < old(settings).clients@.len() {
                    &&& final(settings).clients@ == old(settings).clients@.remove(i as int)
                    &&& final(self).selected_index == if old(settings).clients@.len() == 1 {
                        None
                    } else if i < old(settings).clients@.len() - 1 {
                        Some(i)
                    } else {
                        Some((old(settings).clients@.len() - 2) as usize)
                    }
                } else {
                    &&& final(settings).clients == old(settings).clients
                    &&& final(self).selected_index == old(self).selected_index
                },
                None => {
                    &&& final(settings).clients == old(settings).clients
                    &&& final(self).selected_index is None
                },
            },
    {
        settings.selected_client = self.selected_index;
        if delete {
            if let Some(i) = self.selected_index {
                if i < settings.clients.len() {
                    settings.clients.remove(i);
                    let n = settings.clients.len();
                    self.selected_index = if n == 0 {
                        None
                    } else if i < n - 1 {
                        Some(i)
                    } else {
                        Some(n - 1)
                    };
                }
            }
        }
    }
}

/// The client table of the setup wizard: scan, select and delete clients.
pub struct SettingsGameClientPathEdit {}

impl SettingsGameClientPathEdit {
    /// Clicking row `index` selects that client.
    pub fn select_client(settings: &mut AlembicSettings, index: usize)
        ensures
            old(settings).selections_valid() && index < old(settings).clients@.len()
                ==> final(settings).selections_valid(),
            final(settings).selected_client == Some(index),
            final(settings).clients == old(settings).clients,
            final(settings).is_configured == old(settings).is_configured,
            same_but_clients(*final(settings), *old(settings)),
    {
        settings.selected_client = Some(index);
    }

    /// "Delete" on row `index`: removes that client, keeping the selection on
    /// the same client (none if it was the one removed).
    pub fn delete_client(settings: &mut AlembicSettings, index: usize)
        requires
            index < old(settings).clients@.len(),
        ensures
            old(settings).selections_valid() ==> final(settings).selections_valid(),
            final(settings).clients@ == old(settings).clients@.remove(index as int),
            final(settings).selected_client == selection_after_remove(
                old(settings).selected_client,
                index,
            ),
            final(settings).is_configured == old(settings).is_configured,
            same_but_clients(*final(settings), *old(settings)),
    {
        settings.remove_client(index);
        proof {
            if old(settings).selections_valid() {
                assert forall|i: int| 0 <= i < settings.clients@.len() implies selection_valid(
                    #[trigger] settings.clients@[i].selected_dll_of(),
                    settings.clients@[i].dlls_of().len(),
                ) by {
                    if i < index {
                        assert(settings.clients@[i] == old(settings).clients@[i]);
                    } else {
                        assert(settings.clients@[i] == old(settings).clients@[i + 1]);
                    }
                }
            }
        }
    }
}

} // verus!
