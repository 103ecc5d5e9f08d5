//! The launcher's settings: servers, accounts, game clients and the DLLs to
//! inject into each client, with the current selection of each.
use vstd::prelude::*;

use crate::env::EnvVars;

verus! {

/// A game server.
pub struct ServerInfo {
    pub name: String,
    pub hostname: String,
    pub port: String,
}

/// An account on one of the configured servers (by its index).
pub struct Account {
    pub server_index: usize,
    pub username: String,
    pub password: String,
}

/// The kind of DLL to inject.
#[derive(Clone, Copy, Debug, PartialEq, Eq, Structural)]
pub enum DllType {
    Alembic,
    Decal,
}

/// A DLL to inject into a client, with the function to call after injection.
pub struct InjectConfig {
    pub dll_type: DllType,
    pub dll_path: String,
    pub startup_function: Option<String>,
}

/// The program (and its arguments and environment) that runs a Wine client.
pub struct LaunchCommand {
    pub program: String,
    pub args: Vec<String>,
    pub env: EnvVars,
}

/// A client that runs natively on Windows.
pub struct WindowsClientConfig {
    pub name: String,
    pub client_path: String,
    pub dlls: Vec<InjectConfig>,
    pub selected_dll: Option<usize>,
}

/// A client that runs under Wine.
pub struct WineClientConfig {
    pub name: String,
    pub client_path: String,
    pub launch_command: LaunchCommand,
    pub dlls: Vec<InjectConfig>,
    pub selected_dll: Option<usize>,
}

/// A configured game client.
pub enum ClientConfigType {
    Windows(WindowsClientConfig),
    Wine(WineClientConfig),
}

/// Everything the launcher remembers between runs.
pub struct AlembicSettings {
    pub is_configured: bool,
    pub servers: Vec<ServerInfo>,
    pub selected_server: Option<usize>,
    pub accounts: Vec<Account>,
    pub selected_account: Option<usize>,
    pub clients: Vec<ClientConfigType>,
    pub selected_client: Option<usize>,
}

/// `sel` is absent or indexes a list of `len` items.
pub open spec fn selection_valid(sel: Option<usize>, len: nat) -> bool {
    match sel {
        Some(i) => i < len,
        None => true,
    }
}

/// Where a selection into a list points after the item at `removed` is taken
/// out: nowhere if it pointed at that item, one place earlier if it pointed
/// after it.
pub open spec fn selection_after_remove(sel: Option<usize>, removed: usize) -> Option<usize> {
    match sel {
        Some(s) => if s == removed {
            None
        } else if s > removed {
            Some((s - 1) as usize)
        } else {
            Some(s)
        },
        None => None,
    }
}

/// Where a selection points after an item is added to a list of `len` items
/// that auto-selects the first item of an empty list.
pub open spec fn selection_after_add(sel: Option<usize>, len: nat) -> Option<usize> {
    if len == 0 && sel is None {
        Some(0usize)
    } else {
        sel
    }
}

/// The selection after removing the item at `removed`.
pub fn adjust_selection_after_remove(sel: Option<usize>, removed: usize) -> (r: Option<usize>)
    ensures
        r == selection_after_remove(sel, removed),
{
    match sel {
        Some(s) => if s == removed {
            None
        } else if s > removed {
            Some(s - 1)
        } else {
            Some(s)
        },
        None => None,
    }
}

impl ClientConfigType {
    /// The DLLs configured for this client.
    pub open spec fn dlls_of(self) -> Seq<InjectConfig> {
        match self {
            ClientConfigType::Windows(c) => c.dlls@,
            ClientConfigType::Wine(c) => c.dlls@,
        }
    }

    /// The DLL selected for this client.
    pub open spec fn selected_dll_of(self) -> Option<usize> {
        match self {
            ClientConfigType::Windows(c) => c.selected_dll,
            ClientConfigType::Wine(c) => c.selected_dll,
        }
    }

    /// The client's name.
    pub open spec fn name_of(self) -> Seq<char> {
        match self {
            ClientConfigType::Windows(c) => c.name@,
            ClientConfigType::Wine(c) => c.name@,
        }
    }

    /// The path of the client's executable or directory.
    pub open spec fn client_path_of(self) -> Seq<char> {
        match self {
            ClientConfigType::Windows(c) => c.client_path@,
            ClientConfigType::Wine(c) => c.client_path@,
        }
    }

    /// `self` and `other` agree in all but their DLLs and DLL selection.
    pub open spec fn same_but_dlls(self, other: ClientConfigType) -> bool {
        match (self, other) {
            (ClientConfigType::Windows(a), ClientConfigType::Windows(b)) => a.name == b.name
                && a.client_path == b.client_path,
            (ClientConfigType::Wine(a), ClientConfigType::Wine(b)) => a.name == b.name
                && a.client_path == b.client_path && a.launch_command == b.launch_command,
            _ => false,
        }
    }

    /// Whether this client runs under Wine.
    pub fn is_wine(&self) -> (r: bool)
        ensures
            r == (self is Wine),
    {
        match self {
            ClientConfigType::Windows(_) => false,
            ClientConfigType::Wine(_) => true,
        }
    }

    /// The client's name.
    pub fn name(&self) -> (r: &String)
        ensures
            r@ == self.name_of(),
    {
        match self {
            ClientConfigType::Windows(c) => &c.name,
            ClientConfigType::Wine(c) => &c.name,
        }
    }

    /// The path at which the client is installed.
    pub fn install_path(&self) -> (r: &String)
        ensures
            r@ == self.client_path_of(),
    {
        match self {
            ClientConfigType::Windows(c) => &c.client_path,
            ClientConfigType::Wine(c) => &c.client_path,
        }
    }

    /// The DLLs configured for this client.
    pub fn dlls(&self) -> (r: &Vec<InjectConfig>)
        ensures
            r@ == self.dlls_of(),
    {
        match self {
            ClientConfigType::Windows(c) => &c.dlls,
            ClientConfigType::Wine(c) => &c.dlls,
        }
    }

    /// The DLL selected for this client.
    pub fn selected_dll(&self) -> (r: Option<usize>)
        ensures
            r == self.selected_dll_of(),
    {
        match self {
            ClientConfigType::Windows(c) => c.selected_dll,
            ClientConfigType::Wine(c) => c.selected_dll,
        }
    }

    /// Adds a DLL at the end of this client's list.
    pub fn push_dll(&mut self, dll: InjectConfig)
        ensures
            final(self).dlls_of() == old(self).dlls_of().push(dll),
            final(self).selected_dll_of() == old(self).selected_dll_of(),
            final(self).same_but_dlls(*old(self)),
    {
        match self {
            ClientConfigType::Windows(c) => c.dlls.push(dll),
            ClientConfigType::Wine(c) => c.dlls.push(dll),
        }
    }

    /// Sets which DLL of this client is selected.
    pub fn set_selected_dll(&mut self, sel: Option<usize>)
        ensures
            final(self).dlls_of() == old(self).dlls_of(),
            final(self).selected_dll_of() == sel,
            final(self).same_but_dlls(*old(self)),
    {
        match self {
            ClientConfigType::Windows(c) => c.selected_dll = sel,
            ClientConfigType::Wine(c) => c.selected_dll = sel,
        }
    }

    /// Replaces the DLL at `index`, returning the one it held; the selection
    /// is untouched.
    pub fn replace_dll(&mut self, index: usize, dll: InjectConfig) -> (r: InjectConfig)
        requires
            index < old(self).dlls_of().len(),
        ensures
            r == old(self).dlls_of()[index as int],
            final(self).dlls_of() == old(self).dlls_of().update(index as int, dll),
            final(self).selected_dll_of() == old(self).selected_dll_of(),
            final(self).same_but_dlls(*old(self)),
    {
        match self {
            ClientConfigType::Windows(c) => {
                let r = c.dlls.remove(index);
                c.dlls.insert(index, dll);
                r
            },
            ClientConfigType::Wine(c) => {
                let r = c.dlls.remove(index);
                c.dlls.insert(index, dll);
                r
            },
        }
    }

    /// Removes the DLL at `index`, keeping the selection on the same DLL.
    pub fn remove_dll(&mut self, index: usize) -> (r: InjectConfig)
        requires
            index < old(self).dlls_of().len(),
        ensures
            r == old(self).dlls_of()[index as int],
            final(self).dlls_of() == old(self).dlls_of().remove(index as int),
            final(self).selected_dll_of() == selection_after_remove(
                old(self).selected_dll_of(),
                index,
            ),
            final(self).same_but_dlls(*old(self)),
    {
        match self {
            ClientConfigType::Windows(c) => {
                let r = c.dlls.remove(index);
                c.selected_dll = adjust_selection_after_remove(c.selected_dll, index);
                r
            },
            ClientConfigType::Wine(c) => {
                let r = c.dlls.remove(index);
                c.selected_dll = adjust_selection_after_remove(c.selected_dll, index);
                r
            },
        }
    }
}

impl InjectConfig {
    /// Sets where the DLL is.
    pub fn set_dll_path(&mut self, path: String)
        ensures
            *final(self) == (InjectConfig { dll_path: path, ..*old(self) }),
    {
        self.dll_path = path;
    }

    /// Sets the function to call after injection.
    pub fn set_startup_function(&mut self, f: Option<String>)
        ensures
            *final(self) == (InjectConfig { startup_function: f, ..*old(self) }),
    {
        self.startup_function = f;
    }
}

impl ClientConfigType {
    /// The launch command of a Wine client.
    pub open spec fn launch_command_of(self) -> Option<LaunchCommand> {
        match self {
            ClientConfigType::Windows(_) => None,
            ClientConfigType::Wine(c) => Some(c.launch_command),
        }
    }

    /// Renames the client.
    pub fn set_name(&mut self, name: String)
        ensures
            *final(self) == match *old(self) {
                ClientConfigType::Windows(c) => ClientConfigType::Windows(
                    WindowsClientConfig { name: name, ..c },
                ),
                ClientConfigType::Wine(c) => ClientConfigType::Wine(WineClientConfig { name: name, ..c }),
            },
    {
        match self {
            ClientConfigType::Windows(c) => c.name = name,
            ClientConfigType::Wine(c) => c.name = name,
        }
    }

    /// Sets where the client is installed.
    pub fn set_client_path(&mut self, path: String)
        ensures
            *final(self) == match *old(self) {
                ClientConfigType::Windows(c) => ClientConfigType::Windows(
                    WindowsClientConfig { client_path: path, ..c },
                ),
                ClientConfigType::Wine(c) => ClientConfigType::Wine(
                    WineClientConfig { client_path: path, ..c },
                ),
            },
    {
        match self {
            ClientConfigType::Windows(c) => c.client_path = path,
            ClientConfigType::Wine(c) => c.client_path = path,
        }
    }

    /// Sets the path of the DLL at `index`.
    pub fn set_dll_path(&mut self, index: usize, path: String)
        requires
            index < old(self).dlls_of().len(),
        ensures
            final(self).dlls_of() == old(self).dlls_of().update(
                index as int,
                InjectConfig { dll_path: path, ..old(self).dlls_of()[index as int] },
            ),
            final(self).selected_dll_of() == old(self).selected_dll_of(),
            final(self).same_but_dlls(*old(self)),
    {
        match self {
            ClientConfigType::Windows(c) => c.dlls[index].set_dll_path(path),
            ClientConfigType::Wine(c) => c.dlls[index].set_dll_path(path),
        }
    }

    /// Sets the startup function of the DLL at `index`.
    pub fn set_dll_startup_function(&mut self, index: usize, f: Option<String>)
        requires
            index < old(self).dlls_of().len(),
        ensures
            final(self).dlls_of() == old(self).dlls_of().update(
                index as int,
                InjectConfig { startup_function: f, ..old(self).dlls_of()[index as int] },
            ),
            final(self).selected_dll_of() == old(self).selected_dll_of(),
            final(self).same_but_dlls(*old(self)),
    {
        match self {
            ClientConfigType::Windows(c) => c.dlls[index].set_startup_function(f),
            ClientConfigType::Wine(c) => c.dlls[index].set_startup_function(f),
        }
    }
}

impl ClientConfigType {
    /// `self` is a Wine client that agrees with `other`, a Wine client too,
    /// in all but the environment of its launch command.
    pub open spec fn same_but_env(self, other: ClientConfigType) -> bool {
        match (self, other) {
            (ClientConfigType::Wine(a), ClientConfigType::Wine(b)) => a.name == b.name && a.client_path
                == b.client_path && a.dlls == b.dlls && a.selected_dll == b.selected_dll
                && a.launch_command.program == b.launch_command.program && a.launch_command.args
                == b.launch_command.args,
            _ => false,
        }
    }

    /// `self` is a Wine client that agrees with `other`, a Wine client too,
    /// in all but the arguments of its launch command.
    pub open spec fn same_but_args(self, other: ClientConfigType) -> bool {
        match (self, other) {
            (ClientConfigType::Wine(a), ClientConfigType::Wine(b)) => a.name == b.name && a.client_path
                == b.client_path && a.dlls == b.dlls && a.selected_dll == b.selected_dll
                && a.launch_command.program == b.launch_command.program && a.launch_command.env
                == b.launch_command.env,
            _ => false,
        }
    }

    /// Sets the program of a Wine client's launch command; tells whether the
    /// client runs under Wine (a Windows client is left as it is).
    pub fn set_program(&mut self, program: String) -> (r: bool)
        ensures
            r == (*old(self) is Wine),
            *final(self) == match *old(self) {
                ClientConfigType::Windows(c) => ClientConfigType::Windows(c),
                ClientConfigType::Wine(c) => ClientConfigType::Wine(
                    WineClientConfig {
                        launch_command: LaunchCommand { program: program, ..c.launch_command },
                        ..c
                    },
                ),
            },
    {
        match self {
            ClientConfigType::Windows(_) => false,
            ClientConfigType::Wine(c) => {
                c.launch_command.program = program;
                true
            },
        }
    }

    /// Appends an argument to a Wine client's launch command; tells whether
    /// the client runs under Wine.
    pub fn push_arg(&mut self, arg: String) -> (r: bool)
        ensures
            r == (*old(self) is Wine),
            !r ==> *final(self) == *old(self),
            r ==> final(self).same_but_args(*old(self)),
            r ==> final(self).launch_command_of().unwrap().args@ == old(
                self,
            ).launch_command_of().unwrap().args@.push(arg),
    {
        match self {
            ClientConfigType::Windows(_) => false,
            ClientConfigType::Wine(c) => {
                c.launch_command.args.push(arg);
                true
            },
        }
    }

    /// Removes the argument at `index` of a Wine client's launch command;
    /// tells whether the client runs under Wine and has such an argument.
    pub fn remove_arg(&mut self, index: usize) -> (r: bool)
        ensures
            r == (*old(self) is Wine && index < old(self).launch_command_of().unwrap().args@.len()),
            !r ==> *final(self) == *old(self),
            r ==> final(self).same_but_args(*old(self)),
            r ==> final(self).launch_command_of().unwrap().args@ == old(
                self,
            ).launch_command_of().unwrap().args@.remove(index as int),
    {
        match self {
            ClientConfigType::Windows(_) => false,
            ClientConfigType::Wine(c) => {
                if index < c.launch_command.args.len() {
                    c.launch_command.args.remove(index);
                    true
                } else {
                    false
                }
            },
        }
    }

    /// Sets the environment variable `key` of a Wine client's launch command
    /// to `value`; tells whether the client runs under Wine.
    pub fn set_env_var(&mut self, key: String, value: String) -> (r: bool)
        ensures
            r == (*old(self) is Wine),
            !r ==> *final(self) == *old(self),
            r ==> final(self).same_but_env(*old(self)),
            r ==> final(self).launch_command_of().unwrap().env.map() == old(
                self,
            ).launch_command_of().unwrap().env.map().insert(key@, value@),
    {
        match self {
            ClientConfigType::Windows(_) => false,
            ClientConfigType::Wine(c) => {
                c.launch_command.env.insert(key, value);
                true
            },
        }
    }

    /// Removes the environment variable `key` of a Wine client's launch
    /// command; tells whether the client runs under Wine and had it.
    pub fn remove_env_var(&mut self, key: &String) -> (r: bool)
        ensures
            r == (*old(self) is Wine && old(self).launch_command_of().unwrap().env.map().dom().contains(
                key@,
            )),
            *old(self) is Windows ==> *final(self) == *old(self),
            *old(self) is Wine ==> final(self).same_but_env(*old(self)),
            *old(self) is Wine ==> final(self).launch_command_of().unwrap().env.map() == old(
                self,
            ).launch_command_of().unwrap().env.map().remove(key@),
    {
        match self {
            ClientConfigType::Windows(_) => false,
            ClientConfigType::Wine(c) => c.launch_command.env.remove(key),
        }
    }
}

impl AlembicSettings {
    /// Every selection indexes its list, and every client's DLL selection
    /// indexes that client's DLLs.
    pub open spec fn selections_valid(self) -> bool {
        &&& selection_valid(self.selected_server, self.servers@.len())
        &&& selection_valid(self.selected_account, self.accounts@.len())
        &&& selection_valid(self.selected_client, self.clients@.len())
        &&& forall|i: int|
            0 <= i < self.clients@.len() ==> selection_valid(
                #[trigger] self.clients@[i].selected_dll_of(),
                self.clients@[i].dlls_of().len(),
            )
    }

    /// Every account refers to one of the configured servers.
    pub open spec fn accounts_valid(self) -> bool {
        forall|i: int|
            0 <= i < self.accounts@.len() ==> #[trigger] self.accounts@[i].server_index
                < self.servers@.len()
    }

    /// Empty settings: nothing configured, nothing selected.
    pub fn new() -> (r: AlembicSettings)
        ensures
            !r.is_configured,
            r.servers@.len() == 0,
            r.accounts@.len() == 0,
            r.clients@.len() == 0,
            r.selected_server is None,
            r.selected_account is None,
            r.selected_client is None,
    {
        AlembicSettings {
            is_configured: false,
            servers: Vec::new(),
            selected_server: None,
            accounts: Vec::new(),
            selected_account: None,
            clients: Vec::new(),
            selected_client: None,
        }
    }

    /// The selected client, when the selection indexes the list.
    pub open spec fn selected_client_index(self) -> Option<usize> {
        match self.selected_client {
            Some(i) => if i < self.clients@.len() {
                Some(i)
            } else {
                None
            },
            None => None,
        }
    }

    /// The selected server, when the selection indexes the list.
    pub open spec fn selected_server_index(self) -> Option<usize> {
        match self.selected_server {
            Some(i) => if i < self.servers@.len() {
                Some(i)
            } else {
                None
            },
            None => None,
        }
    }

    /// The selected account, when the selection indexes the list.
    pub open spec fn selected_account_index(self) -> Option<usize> {
        match self.selected_account {
            Some(i) => if i < self.accounts@.len() {
                Some(i)
            } else {
                None
            },
            None => None,
        }
    }

    /// The DLL selected for client `client`, when both indices are in range.
    pub open spec fn client_selected_dll_index(self, client: usize) -> Option<usize> {
        if client < self.clients@.len() {
            match self.clients@[client as int].selected_dll_of() {
                Some(d) => if d < self.clients@[client as int].dlls_of().len() {
                    Some(d)
                } else {
                    None
                },
                None => None,
            }
        } else {
            None
        }
    }

    /// The index of the selected client, if it names one.
    pub fn get_selected_client(&self) -> (r: Option<usize>)
        ensures
            r == self.selected_client_index(),
    {
        match self.selected_client {
            Some(i) => if i < self.clients.len() {
                Some(i)
            } else {
                None
            },
            None => None,
        }
    }

    /// The index of the selected server, if it names one.
    pub fn get_selected_server(&self) -> (r: Option<usize>)
        ensures
            r == self.selected_server_index(),
    {
        match self.selected_server {
            Some(i) => if i < self.servers.len() {
                Some(i)
            } else {
                None
            },
            None => None,
        }
    }

    /// The index of the selected account, if it names one.
    pub fn get_selected_account(&self) -> (r: Option<usize>)
        ensures
            r == self.selected_account_index(),
    {
        match self.selected_account {
            Some(i) => if i < self.accounts.len() {
                Some(i)
            } else {
                None
            },
            None => None,
        }
    }

    /// The index of the DLL selected for client `client`, if it names one.
    pub fn get_client_selected_dll(&self, client: usize) -> (r: Option<usize>)
        ensures
            r == self.client_selected_dll_index(client),
    {
        if client < self.clients.len() {
            let c = &self.clients[client];
            match c.selected_dll() {
                Some(d) => if d < c.dlls().len() {
                    Some(d)
                } else {
                    None
                },
                None => None,
            }
        } else {
            None
        }
    }

    /// The DLLs of client `client`, if there is such a client.
    pub fn get_client_dlls(&self, client: usize) -> (r: Option<&Vec<InjectConfig>>)
        ensures
            match r {
                Some(d) => client < self.clients@.len() && d@ == self.clients@[client as int].dlls_of(),
                None => client >= self.clients@.len(),
            },
    {
        if client < self.clients.len() {
            Some(self.clients[client].dlls())
        } else {
            None
        }
    }

    /// Adds a client at the end of the list, selecting it if `select`.
    pub fn add_client(&mut self, config: ClientConfigType, select: bool)
        ensures
            final(self).clients@ == old(self).clients@.push(config),
            final(self).selected_client == if select {
                Some(old(self).clients@.len() as usize)
            } else {
                old(self).selected_client
            },
            final(self).servers == old(self).servers,
            final(self).accounts == old(self).accounts,
            final(self).selected_server == old(self).selected_server,
            final(self).selected_account == old(self).selected_account,
            final(self).is_configured == old(self).is_configured,
    {
        let n = self.clients.len();
        self.clients.push(config);
        if select {
            self.selected_client = Some(n);
        }
    }

    /// Removes the client at `index`, keeping the selection on the same client.
    pub fn remove_client(&mut self, index: usize)
        requires
            index < old(self).clients@.len(),
        ensures
            final(self).clients@ == old(self).clients@.remove(index as int),
            final(self).selected_client == selection_after_remove(
                old(self).selected_client,
                index,
            ),
            final(self).servers == old(self).servers,
            final(self).accounts == old(self).accounts,
            final(self).selected_server == old(self).selected_server,
            final(self).selected_account == old(self).selected_account,
            final(self).is_configured == old(self).is_configured,
    {
        self.clients.remove(index);
        self.selected_client = adjust_selection_after_remove(self.selected_client, index);
    }

    /// Adds a DLL to client `client`; tells whether there was such a client.
    pub fn add_dll_to_client(&mut self, client: usize, dll: InjectConfig) -> (r: bool)
        ensures
            r == (client < old(self).clients@.len()),
            final(self).clients@.len() == old(self).clients@.len(),
            forall|i: int|
                0 <= i < old(self).clients@.len() && i != client ==> #[trigger] final(self).clients@[i] == old(self).clients@[i],
            r ==> final(self).clients@[client as int].dlls_of() == old(self).clients@[client as int].dlls_of().push(dll),
            r ==> final(self).clients@[client as int].selected_dll_of() == old(self).clients@[client as int].selected_dll_of(),
            r ==> final(self).clients@[client as int].same_but_dlls(
                old(self).clients@[client as int],
            ),
            !r ==> final(self).clients@ == old(self).clients@,
            final(self).servers == old(self).servers,
            final(self).accounts == old(self).accounts,
            final(self).selected_server == old(self).selected_server,
            final(self).selected_account == old(self).selected_account,
            final(self).selected_client == old(self).selected_client,
            final(self).is_configured == old(self).is_configured,
    {
        if client < self.clients.len() {
            self.clients[client].push_dll(dll);
            true
        } else {
            false
        }
    }

    /// Sets the DLL selection of client `client`, if there is such a client.
    pub fn select_dll_for_client(&mut self, client: usize, sel: Option<usize>)
        ensures
            final(self).clients@.len() == old(self).clients@.len(),
            forall|i: int|
                0 <= i < old(self).clients@.len() && i != client ==> #[trigger] final(self).clients@[i] == old(self).clients@[i],
            client < old(self).clients@.len() ==> final(self).clients@[client as int].dlls_of()
                == old(self).clients@[client as int].dlls_of(),
            client < old(self).clients@.len() ==> final(self).clients@[client as int].selected_dll_of() == sel,
            client < old(self).clients@.len() ==> final(self).clients@[client as int].same_but_dlls(
                old(self).clients@[client as int],
            ),
            final(self).servers == old(self).servers,
            final(self).accounts == old(self).accounts,
            final(self).selected_server == old(self).selected_server,
            final(self).selected_account == old(self).selected_account,
            final(self).selected_client == old(self).selected_client,
            final(self).is_configured == old(self).is_configured,
    {
        if client < self.clients.len() {
            self.clients[client].set_selected_dll(sel);
        }
    }

    /// Removes DLL `dll` of client `client`, if both exist, keeping that
    /// client's selection on the same DLL.
    pub fn remove_dll_from_client(&mut self, client: usize, dll: usize) -> (r: bool)
        ensures
            r == (client < old(self).clients@.len() && dll < old(self).clients@[client as int].dlls_of().len()),
            final(self).clients@.len() == old(self).clients@.len(),
            forall|i: int|
                0 <= i < old(self).clients@.len() && i != client ==> #[trigger] final(self).clients@[i] == old(self).clients@[i],
            r ==> final(self).clients@[client as int].dlls_of() == old(self).clients@[client as int].dlls_of().remove(dll as int),
            r ==> final(self).clients@[client as int].selected_dll_of() == selection_after_remove(
                old(self).clients@[client as int].selected_dll_of(),
                dll,
            ),
            r ==> final(self).clients@[client as int].same_but_dlls(
                old(self).clients@[client as int],
            ),
            !r ==> *final(self) == *old(self),
            final(self).servers == old(self).servers,
            final(self).accounts == old(self).accounts,
            final(self).selected_server == old(self).selected_server,
            final(self).selected_account == old(self).selected_account,
            final(self).selected_client == old(self).selected_client,
            final(self).is_configured == old(self).is_configured,
    {
        if client < self.clients.len() && dll < self.clients[client].dlls().len() {
            self.clients[client].remove_dll(dll);
            true
        } else {
            false
        }
    }
}

} // verus!
