//! The pickers of the main page: of the account, the client, the DLL and the
//! server to launch with. Each shows the names to choose from and the text
//! of its closed box, and a choice writes the selection into the settings.
use vstd::prelude::*;

use crate::settings::{AlembicSettings, DllType};
use crate::text::{chars_of, push_str, string_from_chars, string_of};

verus! {

/// The text of a closed picker over `names`: the selected name; `none` when
/// nothing (or nothing in range) is selected; `empty` when there are no names.
pub open spec fn picked_text(
    names: Seq<Seq<char>>,
    sel: Option<usize>,
    none: Seq<char>,
    empty: Seq<char>,
) -> Seq<char> {
    if names.len() == 0 {
        empty
    } else {
        match sel {
            Some(i) => if i < names.len() {
                names[i as int]
            } else {
                none
            },
            None => none,
        }
    }
}

/// The views of `v`.
pub open spec fn views(v: Seq<String>) -> Seq<Seq<char>> {
    v.map_values(|s: String| s@)
}

fn pick_text(names: &Vec<String>, sel: Option<usize>, none: &str, empty: &str) -> (r: String)
    ensures
        r@ == picked_text(views(names@), sel, none@, empty@),
{
    if names.len() == 0 {
        string_of(empty)
    } else {
        match sel {
            Some(i) => if i < names.len() {
                names[i].clone()
            } else {
                string_of(none)
            },
            None => string_of(none),
        }
    }
}

/// The usernames of the accounts on server `server`, in order (none when no
/// server is picked).
pub open spec fn account_names(accounts: Seq<crate::settings::Account>, server: Option<usize>) -> Seq<Seq<char>>
    decreases accounts.len(),
{
    if accounts.len() == 0 {
        Seq::empty()
    } else {
        let rest = account_names(accounts.drop_last(), server);
        if server is Some && accounts.last().server_index == server.unwrap() {
            rest.push(accounts.last().username@)
        } else {
            rest
        }
    }
}

/// The account picker, over the accounts of the server picked beside it.
pub struct AccountPicker {
    pub selected_server: Option<usize>,
}

impl AccountPicker {
    /// The usernames to choose from.
    pub fn names(&self, settings: &AlembicSettings) -> (r: Vec<String>)
        ensures
            views(r@) == account_names(settings.accounts@, self.selected_server),
    {
        let mut r: Vec<String> = Vec::new();
        let mut i: usize = 0;
        while i < settings.accounts.len()
            invariant
                i <= settings.accounts@.len(),
                views(r@) == account_names(settings.accounts@.take(i as int), self.selected_server),
            decreases settings.accounts@.len() - i,
        {
            proof {
                assert(settings.accounts@.take(i + 1).drop_last() =~= settings.accounts@.take(i as int));
            }
            if let Some(s) = self.selected_server {
                if settings.accounts[i].server_index == s {
                    r.push(settings.accounts[i].username.clone());
                }
            }
            proof {
                assert(views(r@) =~= account_names(settings.accounts@.take(i + 1), self.selected_server));
            }
            i = i + 1;
        }
        proof {
            assert(settings.accounts@.take(settings.accounts@.len() as int) =~= settings.accounts@);
        }
        r
    }

    /// The text of the closed picker. The selected account counts among
    /// the names shown, not among all accounts.
    pub fn selected_text(&self, settings: &AlembicSettings) -> (r: String)
        ensures
            r@ == picked_text(
                account_names(settings.accounts@, self.selected_server),
                settings.selected_account,
                "Pick an account"@,
                "Pick a server"@,
            ),
    {
        let names = self.names(settings);
        pick_text(&names, settings.selected_account, "Pick an account", "Pick a server")
    }

    /// Choosing the `index`-th name selects account `index` of the settings.
    pub fn pick(settings: &mut AlembicSettings, index: usize)
        ensures
            old(settings).selections_valid() && index < old(settings).accounts@.len()
                ==> final(settings).selections_valid(),
            *final(settings) == (AlembicSettings { selected_account: Some(index), ..*old(settings) }),
    {
        settings.selected_account = Some(index);
    }
}

/// The server picker.
pub struct ServerPicker {}

impl ServerPicker {
    /// The names to choose from.
    pub fn names(settings: &AlembicSettings) -> (r: Vec<String>)
        ensures
            r@.len() == settings.servers@.len(),
            forall|i: int| 0 <= i < r@.len() ==> #[trigger] r@[i]@ == settings.servers@[i].name@,
    {
        let mut r: Vec<String> = Vec::new();
        let mut i: usize = 0;
        while i < settings.servers.len()
            invariant
                i <= settings.servers@.len(),
                r@.len() == i,
                forall|j: int| 0 <= j < i ==> #[trigger] r@[j]@ == settings.servers@[j].name@,
            decreases settings.servers@.len() - i,
        {
            r.push(settings.servers[i].name.clone());
            i = i + 1;
        }
        r
    }

    /// The text of the closed picker.
    pub fn selected_text(settings: &AlembicSettings) -> (r: String)
        ensures
            r@ == picked_text(
                settings.servers@.map_values(|s: crate::settings::ServerInfo| s.name@),
                settings.selected_server,
                "Pick a server"@,
                "No servers"@,
            ),
    {
        let names = Self::names(settings);
        assert(views(names@) =~= settings.servers@.map_values(|s: crate::settings::ServerInfo| s.name@));
        pick_text(&names, settings.selected_server, "Pick a server", "No servers")
    }

    /// Choosing the `index`-th name selects that server.
    pub fn pick(settings: &mut AlembicSettings, index: usize)
        ensures
            old(settings).selections_valid() && index < old(settings).servers@.len()
                ==> final(settings).selections_valid(),
            *final(settings) == (AlembicSettings { selected_server: Some(index), ..*old(settings) }),
    {
        settings.selected_server = Some(index);
    }
}

/// The UTF-8 length of `c`, in bytes.
pub open spec fn char_utf8_len(c: char) -> nat {
    let u = c as u32;
    if u < 0x80 {
        1
    } else if u < 0x800 {
        2
    } else if u < 0x10000 {
        3
    } else {
        4
    }
}

/// The UTF-8 length of `s`, in bytes.
pub open spec fn utf8_len(s: Seq<char>) -> nat
    decreases s.len(),
{
    if s.len() == 0 {
        0
    } else {
        utf8_len(s.drop_last()) + char_utf8_len(s.last())
    }
}

/// A longer prefix is longer in bytes.
proof fn lemma_utf8_len_prefix(s: Seq<char>, a: int, b: int)
    requires
        0 <= a < b <= s.len(),
    ensures
        utf8_len(s.take(a)) < utf8_len(s.take(b)),
    decreases b - a,
{
    assert(s.take(b).drop_last() =~= s.take(b - 1));
    if a < b - 1 {
        lemma_utf8_len_prefix(s, a, b - 1);
    }
}

fn char_len(c: char) -> (n: usize)
    ensures
        n == char_utf8_len(c),
{
    let u = c as u32;
    if u < 0x80 {
        1
    } else if u < 0x800 {
        2
    } else if u < 0x10000 {
        3
    } else {
        4
    }
}

/// `label` is `text`, or, when `text` is longer than 20 bytes, its first 17
/// bytes followed by `...`.
pub open spec fn truncated(text: Seq<char>, label: Seq<char>) -> bool {
    if utf8_len(text) <= 20 {
        label == text
    } else {
        exists|k: int| 0 <= k <= text.len() && #[trigger] utf8_len(text.take(k)) == 17 && label == text.take(k) + "..."@
    }
}

/// The label of a closed client picker: `text`, or, when it is longer than
/// 20 bytes, its first 17 bytes followed by `...`. The 17th byte must end a
/// character of such a text.
pub fn truncate_label(text: &str) -> (r: String)
    requires
        utf8_len(text@) > 20 ==> exists|k: int| 0 <= k <= text@.len() && #[trigger] utf8_len(text@.take(k)) == 17,
    ensures
        truncated(text@, r@),
{
    let cs = chars_of(text);
    let ghost s = text@;
    // Count bytes until past 20 or at the end.
    let mut total: usize = 0;
    let mut i: usize = 0;
    while i < cs.len() && total <= 20
        invariant
            cs@ == s,
            i <= s.len(),
            total == utf8_len(s.take(i as int)),
        decreases s.len() - i,
    {
        assert(s.take(i + 1).drop_last() =~= s.take(i as int));
        total = total + char_len(cs[i]);
        i = i + 1;
    }
    if total <= 20 {
        assert(s.take(s.len() as int) =~= s);
        return string_of(text);
    }
    proof {
        if i < s.len() {
            lemma_utf8_len_prefix(s, i as int, s.len() as int);
        }
        assert(s.take(s.len() as int) =~= s);
    }
    // Take characters while fewer than 17 bytes are taken.
    let mut taken: usize = 0;
    let mut j: usize = 0;
    let n = cs.len();
    while taken < 17
        invariant
            cs@ == s,
            n == s.len(),
            j <= s.len(),
            taken == utf8_len(s.take(j as int)),
            taken <= 17,
            exists|k: int| 0 <= k <= s.len() && #[trigger] utf8_len(s.take(k)) == 17,
        decreases s.len() - j,
    {
        proof {
            let k = choose|k: int| 0 <= k <= s.len() && #[trigger] utf8_len(s.take(k)) == 17;
            if j >= k {
                if j > k {
                    lemma_utf8_len_prefix(s, k, j as int);
                }
            }
            assert(j < k);
            assert(j < s.len());
            assert(s.take(j + 1).drop_last() =~= s.take(j as int));
            if j + 1 < k {
                lemma_utf8_len_prefix(s, j + 1, k);
            }
        }
        taken = taken + char_len(cs[j]);
        j = j + 1;
    }
    let mut prefix: Vec<char> = Vec::new();
    let mut m: usize = 0;
    while m < j
        invariant
            cs@ == s,
            j <= s.len(),
            m <= j,
            prefix@ == s.take(m as int),
        decreases j - m,
    {
        prefix.push(cs[m]);
        assert(prefix@ =~= s.take(m + 1));
        m = m + 1;
    }
    let mut r = string_from_chars(&prefix);
    push_str(&mut r, "...");
    r
}

/// The client picker.
pub struct ClientPicker {}

impl ClientPicker {
    /// The names to choose from.
    pub fn names(settings: &AlembicSettings) -> (r: Vec<String>)
        ensures
            r@.len() == settings.clients@.len(),
            forall|i: int| 0 <= i < r@.len() ==> #[trigger] r@[i]@ == settings.clients@[i].name_of(),
    {
        let mut r: Vec<String> = Vec::new();
        let mut i: usize = 0;
        while i < settings.clients.len()
            invariant
                i <= settings.clients@.len(),
                r@.len() == i,
                forall|j: int| 0 <= j < i ==> #[trigger] r@[j]@ == settings.clients@[j].name_of(),
            decreases settings.clients@.len() - i,
        {
            r.push(settings.clients[i].name().clone());
            i = i + 1;
        }
        r
    }

    /// The text of the closed picker, before truncation.
    pub fn selected_text(settings: &AlembicSettings) -> (r: String)
        ensures
            r@ == picked_text(
                settings.clients@.map_values(|c: crate::settings::ClientConfigType| c.name_of()),
                settings.selected_client,
                "Pick a client"@,
                "No clients"@,
            ),
    {
        let names = Self::names(settings);
        assert(views(names@) =~= settings.clients@.map_values(
            |c: crate::settings::ClientConfigType| c.name_of(),
        ));
        pick_text(&names, settings.selected_client, "Pick a client", "No clients")
    }

    /// Choosing the `index`-th name selects that client.
    pub fn pick(settings: &mut AlembicSettings, index: usize)
        ensures
            old(settings).selections_valid() && index < old(settings).clients@.len()
                ==> final(settings).selections_valid(),
            *final(settings) == (AlembicSettings { selected_client: Some(index), ..*old(settings) }),
    {
        settings.selected_client = Some(index);
    }
}

/// What the closed DLL picker shows.
#[derive(Clone, Copy, Debug, PartialEq, Eq, Structural)]
pub enum DllPickerText {
    /// No client is selected.
    PickClientFirst,
    /// The selected client has no DLLs.
    NoDlls,
    /// No DLL (or none in range) is selected.
    NoDllSelected,
    /// The type of the selected DLL.
    Selected(DllType),
}

/// The DLL picker, over the DLLs of the selected client.
pub struct DllPicker {}

impl DllPicker {
    /// The types of the DLLs to choose from (none when no client, or no
    /// client in range, is selected).
    pub fn options(settings: &AlembicSettings) -> (r: Vec<DllType>)
        ensures
            match settings.selected_client {
                Some(c) => if c < settings.clients@.len() {
                    &&& r@.len() == settings.clients@[c as int].dlls_of().len()
                    &&& forall|i: int|
                        0 <= i < r@.len() ==> #[trigger] r@[i] == settings.clients@[c as int].dlls_of()[i].dll_type
                } else {
                    r@.len() == 0
                },
                None => r@.len() == 0,
            },
    {
        let mut r: Vec<DllType> = Vec::new();
        if let Some(c) = settings.selected_client {
            if let Some(dlls) = settings.get_client_dlls(c) {
                let mut i: usize = 0;
                while i < dlls.len()
                    invariant
                        i <= dlls@.len(),
                        r@.len() == i,
                        forall|j: int| 0 <= j < i ==> #[trigger] r@[j] == dlls@[j].dll_type,
                    decreases dlls@.len() - i,
                {
                    r.push(dlls[i].dll_type);
                    i = i + 1;
                }
            }
        }
        r
    }

    /// What the closed picker shows.
    pub fn selected_text(settings: &AlembicSettings) -> (r: DllPickerText)
        ensures
            r == match settings.selected_client {
                None => DllPickerText::PickClientFirst,
                Some(c) => if c >= settings.clients@.len() || settings.clients@[c as int].dlls_of().len()
                    == 0 {
                    DllPickerText::NoDlls
                } else {
                    match settings.clients@[c as int].selected_dll_of() {
                        Some(d) => if d < settings.clients@[c as int].dlls_of().len() {
                            DllPickerText::Selected(settings.clients@[c as int].dlls_of()[d as int].dll_type)
                        } else {
                            DllPickerText::NoDllSelected
                        },
                        None => DllPickerText::NoDllSelected,
                    }
                },
            },
    {
        match settings.selected_client {
            None => DllPickerText::PickClientFirst,
            Some(c) => {
                if c >= settings.clients.len() || settings.clients[c].dlls().len() == 0 {
                    DllPickerText::NoDlls
                } else {
                    match settings.clients[c].selected_dll() {
                        Some(d) => if d < settings.clients[c].dlls().len() {
                            DllPickerText::Selected(settings.clients[c].dlls()[d].dll_type)
                        } else {
                            DllPickerText::NoDllSelected
                        },
                        None => DllPickerText::NoDllSelected,
                    }
                }
            },
        }
    }

    /// Choosing `None` or the `index`-th DLL sets the selected client's DLL
    /// selection.
    pub fn pick(settings: &mut AlembicSettings, sel: Option<usize>)
        ensures
            old(settings).selections_valid() && crate::settings::selection_valid(
                sel,
                crate::widgets::dlls::selected_dll_count(*old(settings)),
            ) ==> final(settings).selections_valid(),
            match old(settings).selected_client {
                Some(c) => if c < old(settings).clients@.len() {
                    crate::widgets::dlls::client_dlls_set(
                        *final(settings),
                        *old(settings),
                        c as int,
                        old(settings).clients@[c as int].dlls_of(),
                        sel,
                    )
                } else {
                    crate::widgets::dlls::clients_unchanged(*final(settings), *old(settings))
                },
                None => *final(settings) == *old(settings),
            },
    {
        if let Some(c) = settings.selected_client {
            settings.select_dll_for_client(c, sel);
            assert(c >= old(settings).clients@.len() ==> settings.clients@ =~= old(settings).clients@);
            proof {
                if old(settings).selections_valid() && c < old(settings).clients@.len()
                    && crate::settings::selection_valid(
                    sel,
                    crate::widgets::dlls::selected_dll_count(*old(settings)),
                ) {
                    crate::widgets::dlls::lemma_client_dlls_set_valid(
                        *settings,
                        *old(settings),
                        c as int,
                        old(settings).clients@[c as int].dlls_of(),
                        sel,
                    );
                }
            }
        }
    }
}

} // verus!
