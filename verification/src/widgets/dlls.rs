//! The settings pages that manage the DLLs of a client: the DLL editor of
//! the settings window and the DLL table of the client pages.
use vstd::prelude::*;

use crate::commands::same_but_clients;
use crate::settings::{selection_after_remove, selection_valid, AlembicSettings, DllType, InjectConfig};
use crate::text::string_of;

verus! {

/// The settings equal `old` but that client `client` (which exists) has the
/// DLLs `dlls` and the DLL selection `sel`.
pub open spec fn client_dlls_set(
    new: AlembicSettings,
    old: AlembicSettings,
    client: int,
    dlls: Seq<InjectConfig>,
    sel: Option<usize>,
) -> bool {
    &&& 0 <= client < old.clients@.len()
    &&& new.clients@.len() == old.clients@.len()
    &&& forall|j: int|
        0 <= j < old.clients@.len() && j != client ==> #[trigger] new.clients@[j] == old.clients@[j]
    &&& new.clients@[client].dlls_of() == dlls
    &&& new.clients@[client].selected_dll_of() == sel
    &&& new.clients@[client].same_but_dlls(old.clients@[client])
    &&& new.selected_client == old.selected_client
    &&& new.is_configured == old.is_configured
    &&& same_but_clients(new, old)
}

/// The settings' clients, their selection and the configured flag are as in
/// `old` (the other fields may only differ where the caller's contract says).
pub open spec fn clients_unchanged(new: AlembicSettings, old: AlembicSettings) -> bool {
    &&& new.clients@ == old.clients@
    &&& new.selected_client == old.selected_client
    &&& new.is_configured == old.is_configured
    &&& same_but_clients(new, old)
}

/// Setting one client's DLLs and DLL selection keeps the settings'
/// selections valid when the new DLL selection indexes the new DLLs.
pub proof fn lemma_client_dlls_set_valid(
    new: AlembicSettings,
    old: AlembicSettings,
    client: int,
    dlls: Seq<InjectConfig>,
    sel: Option<usize>,
)
    requires
        client_dlls_set(new, old, client, dlls, sel),
        old.selections_valid(),
        selection_valid(sel, dlls.len()),
    ensures
        new.selections_valid(),
{
    assert forall|i: int| 0 <= i < new.clients@.len() implies selection_valid(
        #[trigger] new.clients@[i].selected_dll_of(),
        new.clients@[i].dlls_of().len(),
    ) by {
        if i != client {
            assert(new.clients@[i] == old.clients@[i]);
        }
    }
}

/// `d` is a DLL of type `t` at `path` with startup function `f`.
pub open spec fn is_dll(d: InjectConfig, t: DllType, path: Seq<char>, f: Option<Seq<char>>) -> bool {
    &&& d.dll_type == t
    &&& d.dll_path@ == path
    &&& match (d.startup_function, f) {
        (Some(a), Some(b)) => a@ == b,
        (None, None) => true,
        _ => false,
    }
}

/// "Discover DLLs": appends the discovered DLLs to client `client`; when it
/// had none, the first of them is selected. Nothing changes when nothing was
/// discovered or there is no such client.
pub fn add_discovered_dlls(settings: &mut AlembicSettings, client: usize, discovered: Vec<InjectConfig>)
    ensures
        old(settings).selections_valid() ==> final(settings).selections_valid(),
        discovered@.len() == 0 || client >= old(settings).clients@.len() ==> clients_unchanged(
            *final(settings),
            *old(settings),
        ),
        discovered@.len() > 0 && client < old(settings).clients@.len() ==> client_dlls_set(
            *final(settings),
            *old(settings),
            client as int,
            old(settings).clients@[client as int].dlls_of() + discovered@,
            if old(settings).clients@[client as int].dlls_of().len() == 0 {
                Some(0usize)
            } else {
                old(settings).clients@[client as int].selected_dll_of()
            },
        ),
{
    if discovered.len() == 0 {
        return;
    }
    let had_no_dlls = match settings.get_client_dlls(client) {
        Some(d) => d.len() == 0,
        None => true,
    };
    let ghost start = *settings;
    let ghost ds = discovered@;
    for dll in it: discovered
        invariant
            it.seq() == ds,
            ds.len() > 0,
            client >= start.clients@.len() ==> clients_unchanged(*settings, start),
            client < start.clients@.len() ==> client_dlls_set(
                *settings,
                start,
                client as int,
                start.clients@[client as int].dlls_of() + ds.take(it.index() as int),
                start.clients@[client as int].selected_dll_of(),
            ),
    {
        proof {
            assert(ds.take(it.index() + 1) =~= ds.take(it.index() as int).push(dll));
        }
        settings.add_dll_to_client(client, dll);
        proof {
            if client < start.clients@.len() {
                assert(start.clients@[client as int].dlls_of() + ds.take(it.index() + 1) =~= (
                start.clients@[client as int].dlls_of() + ds.take(it.index() as int)).push(dll));
            }
        }
    }
    proof {
        assert(ds.take(ds.len() as int) =~= ds);
    }
    let ghost mid = *settings;
    if had_no_dlls {
        settings.select_dll_for_client(client, Some(0));
    }
    assert(client >= start.clients@.len() ==> settings.clients@ =~= mid.clients@);
    proof {
        if start.selections_valid() && client < start.clients@.len() {
            lemma_client_dlls_set_valid(
                *settings,
                start,
                client as int,
                start.clients@[client as int].dlls_of() + ds,
                if start.clients@[client as int].dlls_of().len() == 0 {
                    Some(0usize)
                } else {
                    start.clients@[client as int].selected_dll_of()
                },
            );
        }
    }
}

/// The path of the DLL that "New DLL" adds.
pub open spec fn new_dll_path() -> Seq<char> {
    "C:\\Program Files\\Alembic\\Alembic.dll"@
}

/// "New DLL": appends an Alembic DLL at `new_dll_path()` to client `client`
/// and selects it when it is the client's only DLL. Nothing changes when
/// there is no such client.
pub fn add_new_dll(settings: &mut AlembicSettings, client: usize)
    ensures
        old(settings).selections_valid() ==> final(settings).selections_valid(),
        client >= old(settings).clients@.len() ==> clients_unchanged(*final(settings), *old(settings)),
        client < old(settings).clients@.len() ==> client_dlls_set(
            *final(settings),
            *old(settings),
            client as int,
            old(settings).clients@[client as int].dlls_of().push(
                final(settings).clients@[client as int].dlls_of().last(),
            ),
            if old(settings).clients@[client as int].dlls_of().len() == 0 {
                Some(0usize)
            } else {
                old(settings).clients@[client as int].selected_dll_of()
            },
        ),
        client < old(settings).clients@.len() ==> is_dll(
            final(settings).clients@[client as int].dlls_of().last(),
            DllType::Alembic,
            new_dll_path(),
            None,
        ),
{
    let dll = InjectConfig {
        dll_path: string_of("C:\\Program Files\\Alembic\\Alembic.dll"),
        dll_type: DllType::Alembic,
        startup_function: None,
    };
    settings.add_dll_to_client(client, dll);
    let n: usize = match settings.get_client_dlls(client) {
        Some(d) => d.len(),
        None => 0,
    };
    if n == 1 {
        settings.select_dll_for_client(client, Some(0));
    }
    proof {
        if old(settings).selections_valid() && client < old(settings).clients@.len() {
            lemma_client_dlls_set_valid(
                *settings,
                *old(settings),
                client as int,
                old(settings).clients@[client as int].dlls_of().push(
                    settings.clients@[client as int].dlls_of().last(),
                ),
                if old(settings).clients@[client as int].dlls_of().len() == 0 {
                    Some(0usize)
                } else {
                    old(settings).clients@[client as int].selected_dll_of()
                },
            );
        }
    }
}

/// The DLL table of the client pages, for the selected client: scan, add,
/// select and delete its DLLs.
pub struct SettingsDLLPathEdit {}

impl SettingsDLLPathEdit {
    /// Clicking row `index` selects that DLL for the selected client.
    pub fn select_dll(settings: &mut AlembicSettings, index: usize)
        ensures
            old(settings).selections_valid() && index < selected_dll_count(*old(settings))
                ==> final(settings).selections_valid(),
            match old(settings).selected_client {
                Some(c) => if c < old(settings).clients@.len() {
                    client_dlls_set(
                        *final(settings),
                        *old(settings),
                        c as int,
                        old(settings).clients@[c as int].dlls_of(),
                        Some(index),
                    )
                } else {
                    clients_unchanged(*final(settings), *old(settings))
                },
                None => clients_unchanged(*final(settings), *old(settings)),
            },
    {
        if let Some(c) = settings.selected_client {
            settings.select_dll_for_client(c, Some(index));
            assert(c >= old(settings).clients@.len() ==> settings.clients@ =~= old(settings).clients@);
            proof {
                if old(settings).selections_valid() && index < selected_dll_count(*old(settings)) {
                    lemma_client_dlls_set_valid(
                        *settings,
                        *old(settings),
                        c as int,
                        old(settings).clients@[c as int].dlls_of(),
                        Some(index),
                    );
                }
            }
        }
    }

    /// "Delete" on row `index`: removes that DLL of the selected client,
    /// keeping its selection on the same DLL.
    pub fn delete_dll(settings: &mut AlembicSettings, index: usize)
        ensures
            old(settings).selections_valid() ==> final(settings).selections_valid(),
            match old(settings).selected_client {
                Some(c) => if c < old(settings).clients@.len() && index < old(
                    settings,
                ).clients@[c as int].dlls_of().len() {
                    client_dlls_set(
                        *final(settings),
                        *old(settings),
                        c as int,
                        old(settings).clients@[c as int].dlls_of().remove(index as int),
                        selection_after_remove(old(settings).clients@[c as int].selected_dll_of(), index),
                    )
                } else {
                    *final(settings) == *old(settings)
                },
                None => *final(settings) == *old(settings),
            },
    {
        if let Some(c) = settings.selected_client {
            let removed = settings.remove_dll_from_client(c, index);
            proof {
                if old(settings).selections_valid() && removed {
                    lemma_client_dlls_set_valid(
                        *settings,
                        *old(settings),
                        c as int,
                        old(settings).clients@[c as int].dlls_of().remove(index as int),
                        selection_after_remove(old(settings).clients@[c as int].selected_dll_of(), index),
                    );
                }
            }
        }
    }

    /// "Discover DLLs" for the selected client.
    pub fn discover_dlls(settings: &mut AlembicSettings, discovered: Vec<InjectConfig>)
        ensures
            old(settings).selections_valid() ==> final(settings).selections_valid(),
            match old(settings).selected_client {
                Some(c) => if discovered@.len() > 0 && c < old(settings).clients@.len() {
                    client_dlls_set(
                        *final(settings),
                        *old(settings),
                        c as int,
                        old(settings).clients@[c as int].dlls_of() + discovered@,
                        if old(settings).clients@[c as int].dlls_of().len() == 0 {
                            Some(0usize)
                        } else {
                            old(settings).clients@[c as int].selected_dll_of()
                        },
                    )
                } else {
                    clients_unchanged(*final(settings), *old(settings))
                },
                None => *final(settings) == *old(settings),
            },
    {
        if let Some(c) = settings.selected_client {
            add_discovered_dlls(settings, c, discovered);
        }
    }

    /// "New DLL" for the selected client.
    pub fn new_dll(settings: &mut AlembicSettings)
        ensures
            old(settings).selections_valid() ==> final(settings).selections_valid(),
            match old(settings).selected_client {
                Some(c) => if c < old(settings).clients@.len() {
                    &&& client_dlls_set(
                        *final(settings),
                        *old(settings),
                        c as int,
                        old(settings).clients@[c as int].dlls_of().push(
                            final(settings).clients@[c as int].dlls_of().last(),
                        ),
                        if old(settings).clients@[c as int].dlls_of().len() == 0 {
                            Some(0usize)
                        } else {
                            old(settings).clients@[c as int].selected_dll_of()
                        },
                    )
                    &&& is_dll(
                        final(settings).clients@[c as int].dlls_of().last(),
                        DllType::Alembic,
                        new_dll_path(),
                        None,
                    )
                } else {
                    clients_unchanged(*final(settings), *old(settings))
                },
                None => *final(settings) == *old(settings),
            },
    {
        if let Some(c) = settings.selected_client {
            add_new_dll(settings, c);
        }
    }
}

/// How many DLLs the selected client has (none when no client is selected).
pub open spec fn selected_dll_count(settings: AlembicSettings) -> nat {
    match settings.selected_client {
        Some(c) => if c < settings.clients@.len() {
            settings.clients@[c as int].dlls_of().len()
        } else {
            0
        },
        None => 0,
    }
}

/// The DLL editor of the settings window: the DLLs of the selected client
/// and the fields of the one selected here.
pub struct SettingsDllsTab {
    pub selected_index: Option<usize>,
}

impl SettingsDllsTab {
    /// No DLL selected.
    pub fn new() -> (r: SettingsDllsTab)
        ensures
            r.selected_index is None,
    {
        SettingsDllsTab { selected_index: None }
    }

    /// Appends `dll` to the selected client and selects it here.
    fn add_dll(&mut self, settings: &mut AlembicSettings, dll: InjectConfig)
        ensures
            old(settings).selections_valid() ==> final(settings).selections_valid(),
            match old(settings).selected_client {
                Some(c) => if c < old(settings).clients@.len() {
                    &&& client_dlls_set(
                        *final(settings),
                        *old(settings),
                        c as int,
                        old(settings).clients@[c as int].dlls_of().push(dll),
                        old(settings).clients@[c as int].selected_dll_of(),
                    )
                    &&& final(self).selected_index == Some(
                        old(settings).clients@[c as int].dlls_of().len() as usize,
                    )
                } else {
                    &&& clients_unchanged(*final(settings), *old(settings))
                    &&& final(self).selected_index == old(self).selected_index
                },
                None => {
                    &&& *final(settings) == *old(settings)
                    &&& final(self).selected_index == old(self).selected_index
                },
            },
    {
        if let Some(c) = settings.selected_client {
            if settings.add_dll_to_client(c, dll) {
                let n: usize = match settings.get_client_dlls(c) {
                    Some(d) => d.len(),
                    None => 1,
                };
                self.selected_index = Some(n - 1);
                proof {
                    if old(settings).selections_valid() {
                        lemma_client_dlls_set_valid(
                            *settings,
                            *old(settings),
                            c as int,
                            old(settings).clients@[c as int].dlls_of().push(dll),
                            old(settings).clients@[c as int].selected_dll_of(),
                        );
                    }
                }
            }
        }
    }

    /// "New Decal": appends a Decal DLL at its usual install path, started
    /// by `DecalStartup`, to the selected client and selects it here.
    pub fn new_decal(&mut self, settings: &mut AlembicSettings)
        ensures
            old(settings).selections_valid() ==> final(settings).selections_valid(),
            match old(settings).selected_client {
                Some(c) => if c < old(settings).clients@.len() {
                    &&& client_dlls_set(
                        *final(settings),
                        *old(settings),
                        c as int,
                        old(settings).clients@[c as int].dlls_of().push(
                            final(settings).clients@[c as int].dlls_of().last(),
                        ),
                        old(settings).clients@[c as int].selected_dll_of(),
                    )
                    &&& is_dll(
                        final(settings).clients@[c as int].dlls_of().last(),
                        DllType::Decal,
                        "C:\\Program Files (x86)\\Decal 3.0\\Inject.dll"@,
                        Some("DecalStartup"@),
                    )
                    &&& final(self).selected_index == Some(
                        old(settings).clients@[c as int].dlls_of().len() as usize,
                    )
                } else {
                    &&& clients_unchanged(*final(settings), *old(settings))
                    &&& final(self).selected_index == old(self).selected_index
                },
                None => {
                    &&& *final(settings) == *old(settings)
                    &&& final(self).selected_index == old(self).selected_index
                },
            },
    {
        let dll = InjectConfig {
            dll_type: DllType::Decal,
            dll_path: string_of("C:\\Program Files (x86)\\Decal 3.0\\Inject.dll"),
            startup_function: Some(string_of("DecalStartup")),
        };
        self.add_dll(settings, dll);
    }

    /// "New Alembic": appends an Alembic DLL at a placeholder path to the
    /// selected client and selects it here.
    pub fn new_alembic(&mut self, settings: &mut AlembicSettings)
        ensures
            old(settings).selections_valid() ==> final(settings).selections_valid(),
            match old(settings).selected_client {
                Some(c) => if c < old(settings).clients@.len() {
                    &&& client_dlls_set(
                        *final(settings),
                        *old(settings),
                        c as int,
                        old(settings).clients@[c as int].dlls_of().push(
                            final(settings).clients@[c as int].dlls_of().last(),
                        ),
                        old(settings).clients@[c as int].selected_dll_of(),
                    )
                    &&& is_dll(
                        final(settings).clients@[c as int].dlls_of().last(),
                        DllType::Alembic,
                        "C:\\path\\to\\alembic.dll"@,
                        None,
                    )
                    &&& final(self).selected_index == Some(
                        old(settings).clients@[c as int].dlls_of().len() as usize,
                    )
                } else {
                    &&& clients_unchanged(*final(settings), *old(settings))
                    &&& final(self).selected_index == old(self).selected_index
                },
                None => {
                    &&& *final(settings) == *old(settings)
                    &&& final(self).selected_index == old(self).selected_index
                },
            },
    {
        let dll = InjectConfig {
            dll_type: DllType::Alembic,
            dll_path: string_of("C:\\path\\to\\alembic.dll"),
            startup_function: None,
        };
        self.add_dll(settings, dll);
    }

    /// The number of DLLs of the selected client.
    pub fn dll_count(settings: &AlembicSettings) -> (n: usize)
        ensures
            n == selected_dll_count(*settings),
    {
        match settings.selected_client {
            Some(c) => match settings.get_client_dlls(c) {
                Some(d) => d.len(),
                None => 0,
            },
            None => 0,
        }
    }

    /// Keeps the selection within the selected client's DLLs, when it has
    /// any: a selection past the end moves to the last DLL.
    pub fn clamp_selection(&mut self, settings: &AlembicSettings)
        ensures
            selected_dll_count(*settings) > 0 ==> selection_valid(final(self).selected_index, selected_dll_count(*settings)),
            final(self).selected_index == match old(self).selected_index {
                Some(i) => if selected_dll_count(*settings) > 0 && i >= selected_dll_count(*settings) {
                    Some((selected_dll_count(*settings) - 1) as usize)
                } else {
                    Some(i)
                },
                None => None,
            },
    {
        let n = Self::dll_count(settings);
        if let Some(i) = self.selected_index {
            if n > 0 && i >= n {
                self.selected_index = Some(n - 1);
            }
        }
    }

    /// The "DLL Path" field: sets the path of the DLL selected here.
    pub fn set_dll_path(&self, settings: &mut AlembicSettings, path: String) -> (r: bool)
        ensures
            old(settings).selections_valid() ==> final(settings).selections_valid(),
            r == (self.selected_index is Some && self.selected_index.unwrap() < selected_dll_count(
                *old(settings),
            )),
            !r ==> *final(settings) == *old(settings),
            r ==> ({
                let c = old(settings).selected_client.unwrap() as int;
                let i = self.selected_index.unwrap() as int;
                client_dlls_set(
                    *final(settings),
                    *old(settings),
                    c,
                    old(settings).clients@[c].dlls_of().update(
                        i,
                        InjectConfig { dll_path: path, ..old(settings).clients@[c].dlls_of()[i] },
                    ),
                    old(settings).clients@[c].selected_dll_of(),
                )
            }),
    {
        let n = Self::dll_count(settings);
        if let Some(i) = self.selected_index {
            if i < n {
                let c = settings.selected_client.unwrap();
                let ghost p = path;
                settings.clients[c].set_dll_path(i, path);
                proof {
                    if old(settings).selections_valid() {
                        lemma_client_dlls_set_valid(
                            *settings,
                            *old(settings),
                            c as int,
                            old(settings).clients@[c as int].dlls_of().update(
                                i as int,
                                InjectConfig { dll_path: p, ..old(settings).clients@[c as int].dlls_of()[i as int] },
                            ),
                            old(settings).clients@[c as int].selected_dll_of(),
                        );
                    }
                }
                return true;
            }
        }
        false
    }

    /// The "Startup Function" field, shown for DLLs other than Decal's: sets
    /// the startup function of the DLL selected here, or clears it when the
    /// text is empty.
    pub fn set_startup_function(&self, settings: &mut AlembicSettings, text: String) -> (r: bool)
        ensures
            old(settings).selections_valid() ==> final(settings).selections_valid(),
            r == (self.selected_index is Some && self.selected_index.unwrap() < selected_dll_count(
                *old(settings),
            ) && old(settings).clients@[old(settings).selected_client.unwrap() as int].dlls_of()[self.selected_index.unwrap() as int].dll_type
                != DllType::Decal),
            !r ==> *final(settings) == *old(settings),
            r ==> ({
                let c = old(settings).selected_client.unwrap() as int;
                let i = self.selected_index.unwrap() as int;
                client_dlls_set(
                    *final(settings),
                    *old(settings),
                    c,
                    old(settings).clients@[c].dlls_of().update(
                        i,
                        InjectConfig {
                            startup_function: if text@.len() == 0 {
                                None
                            } else {
                                Some(text)
                            },
                            ..old(settings).clients@[c].dlls_of()[i]
                        },
                    ),
                    old(settings).clients@[c].selected_dll_of(),
                )
            }),
    {
        let n = Self::dll_count(settings);
        if let Some(i) = self.selected_index {
            if i < n {
                let c = settings.selected_client.unwrap();
                if settings.clients[c].dlls()[i].dll_type != DllType::Decal {
                    let f = if text.as_str().unicode_len() == 0 {
                        None
                    } else {
                        Some(text)
                    };
                    let ghost g = f;
                    settings.clients[c].set_dll_startup_function(i, f);
                    proof {
                        if old(settings).selections_valid() {
                            lemma_client_dlls_set_valid(
                                *settings,
                                *old(settings),
                                c as int,
                                old(settings).clients@[c as int].dlls_of().update(
                                    i as int,
                                    InjectConfig {
                                        startup_function: g,
                                        ..old(settings).clients@[c as int].dlls_of()[i as int]
                                    },
                                ),
                                old(settings).clients@[c as int].selected_dll_of(),
                            );
                        }
                    }
                    return true;
                }
            }
        }
        false
    }

    /// "Delete DLL": removes the DLL selected here from the selected client
    /// (keeping the client's own selection on the same DLL) and selects the
    /// DLL now at its place, or the last one; none if no DLL is left.
    pub fn delete_selected(&mut self, settings: &mut AlembicSettings) -> (r: bool)
        ensures
            r ==> selection_valid(final(self).selected_index, selected_dll_count(*final(settings))),
            old(settings).selections_valid() ==> final(settings).selections_valid(),
            r == (old(self).selected_index is Some && old(self).selected_index.unwrap()
                < selected_dll_count(*old(settings))),
            !r ==> *final(settings) == *old(settings) && final(self).selected_index == old(
                self,
            ).selected_index,
            r ==> ({
                let c = old(settings).selected_client.unwrap() as int;
                let i = old(self).selected_index.unwrap();
                let n = selected_dll_count(*old(settings));
                &&& client_dlls_set(
                    *final(settings),
                    *old(settings),
                    c,
                    old(settings).clients@[c].dlls_of().remove(i as int),
                    selection_after_remove(old(settings).clients@[c].selected_dll_of(), i),
                )
                &&& final(self).selected_index == if n <= 1 {
                    None
                } else if i <= n - 2 {
                    Some(i)
                } else {
                    Some((n - 2) as usize)
                }
            }),
    {
        let n = Self::dll_count(settings);
        if let Some(i) = self.selected_index {
            if i < n {
                let c = settings.selected_client.unwrap();
                settings.remove_dll_from_client(c, i);
                proof {
                    if old(settings).selections_valid() {
                        lemma_client_dlls_set_valid(
                            *settings,
                            *old(settings),
                            c as int,
                            old(settings).clients@[c as int].dlls_of().remove(i as int),
                            selection_after_remove(old(settings).clients@[c as int].selected_dll_of(), i),
                        );
                    }
                }
                self.selected_index = if n <= 1 {
                    None
                } else if i <= n - 2 {
                    Some(i)
                } else {
                    Some(n - 2)
                };
                return true;
            }
        }
        false
    }
}

} // verus!
