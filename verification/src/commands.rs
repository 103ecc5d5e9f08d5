//! The configuration commands: what each does to the settings, and when it is
//! refused. Reading and writing the settings file and printing stay with the
//! caller.
use vstd::prelude::*;

use crate::text::{lowercase, str_eq, string_of, to_lowercase, trim, trim_str};

use crate::env::EnvVars;
use crate::settings::{
    ClientConfigType, DllType, InjectConfig, LaunchCommand, WindowsClientConfig, WineClientConfig,
    adjust_selection_after_remove, selection_after_add, selection_after_remove, selection_valid, Account, AlembicSettings, ServerInfo,
};

verus! {

/// Why a command was refused.
#[derive(Debug)]
pub enum CommandError {
    InvalidServerIndex(usize),
    InvalidAccountIndex(usize),
    InvalidClientIndex(usize),
    InvalidDllIndex(usize),
    InvalidMode(String),
    WinePrefixRequired,
    InvalidDllType(String),
    NoClientSelected,
    NoServerSelected,
    NoAccountSelected,
    NoDllSelected,
    ServerNotFound(String),
    AccountNotFound(String),
    NotWineClient,
}

/// What an edit command did.
#[derive(Debug, PartialEq, Eq, Structural)]
pub enum EditOutcome {
    /// No field was given, so nothing was changed.
    NoChanges,
    /// The given fields were written.
    Updated,
}

/// The settings agree with `old` outside the accounts and their selection.
pub open spec fn same_but_accounts(new: AlembicSettings, old: AlembicSettings) -> bool {
    &&& new.servers == old.servers
    &&& new.selected_server == old.selected_server
    &&& new.clients == old.clients
    &&& new.selected_client == old.selected_client
    &&& new.is_configured == old.is_configured
}

/// The settings agree with `old` outside the servers, the accounts and their selections.
pub open spec fn same_but_servers_accounts(new: AlembicSettings, old: AlembicSettings) -> bool {
    &&& new.clients == old.clients
    &&& new.selected_client == old.selected_client
    &&& new.is_configured == old.is_configured
}

/// The settings agree with `old` outside the clients, their selection and the configured flag.
pub open spec fn same_but_clients(new: AlembicSettings, old: AlembicSettings) -> bool {
    &&& new.servers == old.servers
    &&& new.selected_server == old.selected_server
    &&& new.accounts == old.accounts
    &&& new.selected_account == old.selected_account
}

/// The names that the commands compare against are distinct.
proof fn lemma_names_distinct()
    ensures
        "alembic"@ != "decal"@,
        "windows"@ != "wine"@,
        ""@ == Seq::<char>::empty(),
{
    reveal_strlit("alembic");
    reveal_strlit("decal");
    reveal_strlit("windows");
    reveal_strlit("wine");
    reveal_strlit("");
    assert("alembic"@.len() == 7);
    assert("decal"@.len() == 5);
    assert("windows"@.len() == 7);
    assert("wine"@.len() == 4);
    assert(""@.len() == 0);
}

// ---------------------------------------------------------------------------
// Accounts
// ---------------------------------------------------------------------------

/// Adds an account on server `server`. The first account added is selected
/// when no account was selected. Returns whether there were no accounts before.
pub fn account_add(
    settings: &mut AlembicSettings,
    server: usize,
    username: String,
    password: String,
) -> (r: Result<bool, CommandError>)
    ensures
        old(settings).selections_valid() ==> final(settings).selections_valid(),
        r is Err <==> server >= old(settings).servers@.len(),
        r is Err ==> *final(settings) == *old(settings),
        r matches Err(e) ==> e == CommandError::InvalidServerIndex(server),
        r is Ok ==> final(settings).accounts@ == old(settings).accounts@.push(
            (Account { server_index: server, username: username, password: password }),
        ),
        r is Ok ==> final(settings).selected_account == selection_after_add(
            old(settings).selected_account,
            old(settings).accounts@.len(),
        ),
        r matches Ok(first) ==> first == (old(settings).accounts@.len() == 0),
        r is Ok ==> same_but_accounts(*final(settings), *old(settings)),
{
    if server >= settings.servers.len() {
        return Err(CommandError::InvalidServerIndex(server));
    }
    let had_no_accounts = settings.accounts.len() == 0;
    settings.accounts.push(Account { server_index: server, username, password });
    if had_no_accounts && settings.selected_account.is_none() {
        settings.selected_account = Some(0);
    }
    Ok(had_no_accounts)
}

/// One line of an account listing.
pub struct AccountRow {
    pub index: usize,
    pub selected: bool,
    pub username: String,
    /// The name of the account's server, when its index names one.
    pub server_name: Option<String>,
}

/// What `account_list` shows.
pub enum AccountListing {
    /// No servers are configured.
    NoServers,
    /// No account matches the filter.
    NoAccounts,
    /// The matching accounts, in order.
    Accounts(Vec<AccountRow>),
}

/// Whether `account` passes the optional server filter.
pub open spec fn account_matches(account: Account, filter: Option<usize>) -> bool {
    match filter {
        Some(s) => account.server_index == s,
        None => true,
    }
}

/// The indices, below `n`, of the accounts that pass the filter, in order.
pub open spec fn matching_accounts(accounts: Seq<Account>, filter: Option<usize>, n: nat) -> Seq<usize>
    decreases n,
{
    if n == 0 {
        Seq::empty()
    } else {
        let rest = matching_accounts(accounts, filter, (n - 1) as nat);
        if account_matches(accounts[n - 1], filter) {
            rest.push((n - 1) as usize)
        } else {
            rest
        }
    }
}

/// The matching indices come in increasing order, each below `n`, and every
/// account below `n` that passes the filter is among them.
pub proof fn lemma_matching_accounts(accounts: Seq<Account>, filter: Option<usize>, n: nat)
    requires
        n <= accounts.len() <= usize::MAX,
    ensures
        forall|k: int|
            0 <= k < matching_accounts(accounts, filter, n).len() ==> #[trigger] matching_accounts(
                accounts,
                filter,
                n,
            )[k] < n,
        forall|k1: int, k2: int|
            0 <= k1 < k2 < matching_accounts(accounts, filter, n).len() ==> #[trigger] matching_accounts(
                accounts,
                filter,
                n,
            )[k1] < #[trigger] matching_accounts(accounts, filter, n)[k2],
        forall|i: int|
            0 <= i < n && #[trigger] account_matches(accounts[i], filter) ==> exists|k: int|
                0 <= k < matching_accounts(accounts, filter, n).len() && matching_accounts(
                    accounts,
                    filter,
                    n,
                )[k] == i,
    decreases n,
{
    if n > 0 {
        let front = matching_accounts(accounts, filter, (n - 1) as nat);
        lemma_matching_accounts(accounts, filter, (n - 1) as nat);
        let m = matching_accounts(accounts, filter, n);
        assert forall|i: int| 0 <= i < n && #[trigger] account_matches(accounts[i], filter) implies exists|k: int|
            0 <= k < m.len() && m[k] == i by {
            if i == n - 1 {
                assert(m[m.len() - 1] == i);
            } else {
                let k = choose|k: int| 0 <= k < front.len() && front[k] == i;
                assert(m[k] == front[k]);
            }
        }
    }
}

/// The listing row of account `i`.
pub open spec fn account_row_ok(settings: AlembicSettings, row: AccountRow, i: usize) -> bool {
    let a = settings.accounts@[i as int];
    &&& row.index == i
    &&& row.selected == (settings.selected_account == Some(i))
    &&& row.username == a.username
    &&& row.server_name == if a.server_index < settings.servers@.len() {
        Some(settings.servers@[a.server_index as int].name)
    } else {
        None::<String>
    }
}

/// Lists the accounts, all or those of one server.
pub fn account_list(settings: &AlembicSettings, server_filter: Option<usize>) -> (r: Result<
    AccountListing,
    CommandError,
>)
    ensures
        ({
            let m = matching_accounts(settings.accounts@, server_filter, settings.accounts@.len());
            if settings.servers@.len() == 0 {
                r matches Ok(AccountListing::NoServers)
            } else if m.len() == 0 {
                match server_filter {
                    Some(s) => if s >= settings.servers@.len() {
                        r == Err::<AccountListing, CommandError>(CommandError::InvalidServerIndex(s))
                    } else {
                        r matches Ok(AccountListing::NoAccounts)
                    },
                    None => r matches Ok(AccountListing::NoAccounts),
                }
            } else {
                &&& r matches Ok(AccountListing::Accounts(rows))
                &&& r->Ok_0->Accounts_0@.len() == m.len()
                &&& forall|k: int|
                    0 <= k < m.len() ==> account_row_ok(
                        *settings,
                        #[trigger] r->Ok_0->Accounts_0@[k],
                        m[k],
                    )
                &&& forall|k: int|
                    0 <= k < m.len() ==> (#[trigger] r->Ok_0->Accounts_0@[k]).index == m[k]
                        && r->Ok_0->Accounts_0@[k].selected == (settings.selected_account == Some(
                        r->Ok_0->Accounts_0@[k].index,
                    ))
            }
        }),
{
    if settings.servers.len() == 0 {
        return Ok(AccountListing::NoServers);
    }
    let mut rows: Vec<AccountRow> = Vec::new();
    let mut i: usize = 0;
    let ghost accs = settings.accounts@;
    while i < settings.accounts.len()
        invariant
            accs == settings.accounts@,
            i <= accs.len(),
            rows@.len() == matching_accounts(accs, server_filter, i as nat).len(),
            forall|k: int|
                0 <= k < rows@.len() ==> account_row_ok(
                    *settings,
                    #[trigger] rows@[k],
                    matching_accounts(accs, server_filter, i as nat)[k],
                ),
            forall|k: int|
                0 <= k < matching_accounts(accs, server_filter, i as nat).len() ==> #[trigger] matching_accounts(accs, server_filter, i as nat)[k] < i,
        decreases accs.len() - i,
    {
        let a = &settings.accounts[i];
        let matches = match server_filter {
            Some(s) => a.server_index == s,
            None => true,
        };
        if matches {
            let server_name = if a.server_index < settings.servers.len() {
                Some(settings.servers[a.server_index].name.clone())
            } else {
                None
            };
            rows.push(
                AccountRow {
                    index: i,
                    selected: settings.selected_account == Some(i),
                    username: a.username.clone(),
                    server_name,
                },
            );
        }
        i = i + 1;
    }
    if rows.len() == 0 {
        match server_filter {
            Some(s) => {
                if s >= settings.servers.len() {
                    return Err(CommandError::InvalidServerIndex(s));
                }
            },
            None => {},
        }
        return Ok(AccountListing::NoAccounts);
    }
    Ok(AccountListing::Accounts(rows))
}

/// Selects account `index`.
pub fn account_select(settings: &mut AlembicSettings, index: usize) -> (r: Result<(), CommandError>)
    ensures
        old(settings).selections_valid() ==> final(settings).selections_valid(),
        r is Err <==> index >= old(settings).accounts@.len(),
        r matches Err(e) ==> e == CommandError::InvalidAccountIndex(index),
        r is Err ==> *final(settings) == *old(settings),
        r is Ok ==> final(settings).selected_account == Some(index),
        r is Ok ==> final(settings).accounts == old(settings).accounts,
        r is Ok ==> same_but_accounts(*final(settings), *old(settings)),
{
    if index >= settings.accounts.len() {
        return Err(CommandError::InvalidAccountIndex(index));
    }
    settings.selected_account = Some(index);
    Ok(())
}

/// Clears the account selection; returns whether an account was selected.
pub fn account_reset(settings: &mut AlembicSettings) -> (was_selected: bool)
    ensures
        old(settings).selections_valid() ==> final(settings).selections_valid(),
        was_selected == (old(settings).selected_account is Some),
        final(settings).selected_account is None,
        final(settings).accounts == old(settings).accounts,
        same_but_accounts(*final(settings), *old(settings)),
{
    let was_selected = settings.selected_account.is_some();
    settings.selected_account = None;
    was_selected
}

/// Removes account `index`; the selection keeps pointing at the same account,
/// or at none if that account was removed.
pub fn account_remove(settings: &mut AlembicSettings, index: usize) -> (r: Result<(), CommandError>)
    ensures
        old(settings).selections_valid() ==> final(settings).selections_valid(),
        r is Err <==> index >= old(settings).accounts@.len(),
        r matches Err(e) ==> e == CommandError::InvalidAccountIndex(index),
        r is Err ==> *final(settings) == *old(settings),
        r is Ok ==> final(settings).accounts@ == old(settings).accounts@.remove(index as int),
        r is Ok ==> final(settings).selected_account == selection_after_remove(
            old(settings).selected_account,
            index,
        ),
        r is Ok ==> same_but_accounts(*final(settings), *old(settings)),
{
    if index >= settings.accounts.len() {
        return Err(CommandError::InvalidAccountIndex(index));
    }
    settings.accounts.remove(index);
    settings.selected_account = adjust_selection_after_remove(settings.selected_account, index);
    Ok(())
}

/// `new` when given, else `old`.
pub open spec fn or_keep<T>(new: Option<T>, old: T) -> T {
    match new {
        Some(v) => v,
        None => old,
    }
}

/// Edits the given fields of account `index`.
pub fn account_edit(
    settings: &mut AlembicSettings,
    index: usize,
    server: Option<usize>,
    username: Option<String>,
    password: Option<String>,
) -> (r: Result<EditOutcome, CommandError>)
    ensures
        old(settings).selections_valid() ==> final(settings).selections_valid(),
        r is Err <==> index >= old(settings).accounts@.len(),
        r matches Err(e) ==> e == CommandError::InvalidAccountIndex(index),
        r is Err ==> *final(settings) == *old(settings),
        r matches Ok(o) ==> (o == EditOutcome::NoChanges <==> (server is None && username is None
            && password is None)),
        r == Ok::<EditOutcome, CommandError>(EditOutcome::NoChanges) ==> *final(settings) == *old(
            settings),
        r == Ok::<EditOutcome, CommandError>(EditOutcome::Updated) ==> final(settings).accounts@
            == old(settings).accounts@.update(
            index as int,
            ({
                let a = old(settings).accounts@[index as int];
                Account {
                    server_index: or_keep(server, a.server_index),
                    username: or_keep(username, a.username),
                    password: or_keep(password, a.password),
                }
            }),
        ),
        r is Ok ==> final(settings).selected_account == old(settings).selected_account,
        r is Ok ==> same_but_accounts(*final(settings), *old(settings)),
{
    if index >= settings.accounts.len() {
        return Err(CommandError::InvalidAccountIndex(index));
    }
    if server.is_none() && username.is_none() && password.is_none() {
        return Ok(EditOutcome::NoChanges);
    }
    let account = &mut settings.accounts[index];
    match server {
        Some(s) => account.server_index = s,
        None => {},
    }
    match username {
        Some(u) => account.username = u,
        None => {},
    }
    match password {
        Some(p) => account.password = p,
        None => {},
    }
    Ok(EditOutcome::Updated)
}

// ---------------------------------------------------------------------------
// Servers
// ---------------------------------------------------------------------------

/// Adds a server. The first server added is selected when no server was
/// selected. Returns whether there were no servers before.
pub fn server_add(settings: &mut AlembicSettings, name: String, hostname: String, port: String) -> (first: bool)
    ensures
        old(settings).selections_valid() ==> final(settings).selections_valid(),
        final(settings).servers@ == old(settings).servers@.push(
            (ServerInfo { name: name, hostname: hostname, port: port }),
        ),
        final(settings).selected_server == selection_after_add(
            old(settings).selected_server,
            old(settings).servers@.len(),
        ),
        first == (old(settings).servers@.len() == 0),
        final(settings).accounts == old(settings).accounts,
        final(settings).selected_account == old(settings).selected_account,
        same_but_servers_accounts(*final(settings), *old(settings)),
{
    let had_no_servers = settings.servers.len() == 0;
    settings.servers.push(ServerInfo { name, hostname, port });
    if had_no_servers && settings.selected_server.is_none() {
        settings.selected_server = Some(0);
    }
    had_no_servers
}

/// One line of a server, client or DLL listing.
pub struct ListRow {
    pub index: usize,
    pub selected: bool,
    pub name: String,
}

/// Lists the servers, marking the selected one.
pub fn server_list(settings: &AlembicSettings) -> (rows: Vec<ListRow>)
    ensures
        rows@.len() == settings.servers@.len(),
        forall|k: int|
            0 <= k < rows@.len() ==> {
                &&& (#[trigger] rows@[k]).index == k
                &&& rows@[k].selected == (settings.selected_server == Some(k as usize))
                &&& rows@[k].name == settings.servers@[k].name
            },
{
    let mut rows: Vec<ListRow> = Vec::new();
    let mut i: usize = 0;
    while i < settings.servers.len()
        invariant
            i <= settings.servers@.len(),
            rows@.len() == i,
            forall|k: int|
                0 <= k < rows@.len() ==> {
                    &&& (#[trigger] rows@[k]).index == k
                    &&& rows@[k].selected == (settings.selected_server == Some(k as usize))
                    &&& rows@[k].name == settings.servers@[k].name
                },
        decreases settings.servers@.len() - i,
    {
        rows.push(
            ListRow {
                index: i,
                selected: settings.selected_server == Some(i),
                name: settings.servers[i].name.clone(),
            },
        );
        i = i + 1;
    }
    rows
}

/// Selects server `index`.
pub fn server_select(settings: &mut AlembicSettings, index: usize) -> (r: Result<(), CommandError>)
    ensures
        old(settings).selections_valid() ==> final(settings).selections_valid(),
        r is Err <==> index >= old(settings).servers@.len(),
        r matches Err(e) ==> e == CommandError::InvalidServerIndex(index),
        r is Err ==> *final(settings) == *old(settings),
        r is Ok ==> final(settings).selected_server == Some(index),
        r is Ok ==> final(settings).servers == old(settings).servers,
        r is Ok ==> final(settings).accounts == old(settings).accounts,
        r is Ok ==> final(settings).selected_account == old(settings).selected_account,
        r is Ok ==> same_but_servers_accounts(*final(settings), *old(settings)),
{
    if index >= settings.servers.len() {
        return Err(CommandError::InvalidServerIndex(index));
    }
    settings.selected_server = Some(index);
    Ok(())
}

/// Clears the server selection; returns whether a server was selected.
pub fn server_reset(settings: &mut AlembicSettings) -> (was_selected: bool)
    ensures
        old(settings).selections_valid() ==> final(settings).selections_valid(),
        was_selected == (old(settings).selected_server is Some),
        final(settings).selected_server is None,
        final(settings).servers == old(settings).servers,
        final(settings).accounts == old(settings).accounts,
        final(settings).selected_account == old(settings).selected_account,
        same_but_servers_accounts(*final(settings), *old(settings)),
{
    let was_selected = settings.selected_server.is_some();
    settings.selected_server = None;
    was_selected
}

/// An account as it stands after server `removed` is taken out of the list:
/// its server index moves down by one if it was after the removed server.
pub open spec fn reindexed_account(a: Account, removed: usize) -> Account {
    Account {
        server_index: if a.server_index > removed {
            (a.server_index - 1) as usize
        } else {
            a.server_index
        },
        username: a.username,
        password: a.password,
    }
}

/// The accounts that remain after server `removed` is taken out: those of
/// other servers, in order, re-indexed.
pub open spec fn accounts_after_server_remove(accounts: Seq<Account>, removed: usize) -> Seq<Account>
    decreases accounts.len(),
{
    if accounts.len() == 0 {
        Seq::empty()
    } else {
        let rest = accounts_after_server_remove(accounts.drop_last(), removed);
        if accounts.last().server_index == removed {
            rest
        } else {
            rest.push(reindexed_account(accounts.last(), removed))
        }
    }
}

/// When no account is on server `removed`, every account remains.
pub proof fn lemma_server_remove_keeps_all(accounts: Seq<Account>, removed: usize)
    requires
        forall|k: int| 0 <= k < accounts.len() ==> #[trigger] accounts[k].server_index != removed,
    ensures
        accounts_after_server_remove(accounts, removed).len() == accounts.len(),
    decreases accounts.len(),
{
    if accounts.len() > 0 {
        let rest = accounts.drop_last();
        assert forall|k: int| 0 <= k < rest.len() implies #[trigger] rest[k].server_index != removed by {
            assert(rest[k] == accounts[k]);
        }
        lemma_server_remove_keeps_all(rest, removed);
        assert(accounts.last() == accounts[accounts.len() - 1]);
    }
}

/// Removes server `index` together with its accounts; the remaining accounts
/// keep pointing at their servers, and the server selection keeps pointing at
/// the same server (or at none if it was removed).
pub fn server_remove(settings: &mut AlembicSettings, index: usize) -> (r: Result<(), CommandError>)
    ensures
        old(settings).selections_valid() && (forall|k: int|
            0 <= k < old(settings).accounts@.len() ==> #[trigger] old(settings).accounts@[k].server_index
                != index) ==> final(settings).selections_valid(),
        r is Err <==> index >= old(settings).servers@.len(),
        r matches Err(e) ==> e == CommandError::InvalidServerIndex(index),
        r is Err ==> *final(settings) == *old(settings),
        r is Ok ==> final(settings).servers@ == old(settings).servers@.remove(index as int),
        r is Ok ==> final(settings).selected_server == selection_after_remove(
            old(settings).selected_server,
            index,
        ),
        r is Ok ==> final(settings).accounts@ == accounts_after_server_remove(
            old(settings).accounts@,
            index,
        ),
        r is Ok ==> final(settings).selected_account == old(settings).selected_account,
        r is Ok ==> same_but_servers_accounts(*final(settings), *old(settings)),
{
    if index >= settings.servers.len() {
        return Err(CommandError::InvalidServerIndex(index));
    }
    settings.servers.remove(index);
    settings.selected_server = adjust_selection_after_remove(settings.selected_server, index);
    let mut old_accounts: Vec<Account> = Vec::new();
    std::mem::swap(&mut old_accounts, &mut settings.accounts);
    let ghost accs = old_accounts@;
    let mut kept: Vec<Account> = Vec::new();
    for a in it: old_accounts
        invariant
            it.seq() == accs,
            kept@ == accounts_after_server_remove(accs.take(it.index() as int), index),
    {
        proof {
            assert(accs.take(it.index() + 1).drop_last() =~= accs.take(it.index() as int));
        }
        if a.server_index != index {
            let server_index = if a.server_index > index {
                a.server_index - 1
            } else {
                a.server_index
            };
            kept.push(Account { server_index, username: a.username, password: a.password });
        }
    }
    proof {
        assert(accs.take(accs.len() as int) =~= accs);
        if forall|k: int| 0 <= k < accs.len() ==> #[trigger] accs[k].server_index != index {
            lemma_server_remove_keeps_all(accs, index);
        }
    }
    settings.accounts = kept;
    Ok(())
}

/// Edits the given fields of server `index`.
pub fn server_edit(
    settings: &mut AlembicSettings,
    index: usize,
    name: Option<String>,
    hostname: Option<String>,
    port: Option<String>,
) -> (r: Result<EditOutcome, CommandError>)
    ensures
        old(settings).selections_valid() ==> final(settings).selections_valid(),
        r is Err <==> index >= old(settings).servers@.len(),
        r matches Err(e) ==> e == CommandError::InvalidServerIndex(index),
        r is Err ==> *final(settings) == *old(settings),
        r matches Ok(o) ==> (o == EditOutcome::NoChanges <==> (name is None && hostname is None
            && port is None)),
        r == Ok::<EditOutcome, CommandError>(EditOutcome::NoChanges) ==> *final(settings) == *old(
            settings),
        r == Ok::<EditOutcome, CommandError>(EditOutcome::Updated) ==> final(settings).servers@
            == old(settings).servers@.update(
            index as int,
            ({
                let s = old(settings).servers@[index as int];
                ServerInfo {
                    name: or_keep(name, s.name),
                    hostname: or_keep(hostname, s.hostname),
                    port: or_keep(port, s.port),
                }
            }),
        ),
        r is Ok ==> final(settings).selected_server == old(settings).selected_server,
        r is Ok ==> final(settings).accounts == old(settings).accounts,
        r is Ok ==> final(settings).selected_account == old(settings).selected_account,
        r is Ok ==> same_but_servers_accounts(*final(settings), *old(settings)),
{
    if index >= settings.servers.len() {
        return Err(CommandError::InvalidServerIndex(index));
    }
    if name.is_none() && hostname.is_none() && port.is_none() {
        return Ok(EditOutcome::NoChanges);
    }
    let server = &mut settings.servers[index];
    match name {
        Some(n) => server.name = n,
        None => {},
    }
    match hostname {
        Some(h) => server.hostname = h,
        None => {},
    }
    match port {
        Some(p) => server.port = p,
        None => {},
    }
    Ok(EditOutcome::Updated)
}

// ---------------------------------------------------------------------------
// Clients
// ---------------------------------------------------------------------------

/// How a client is run.
#[derive(Debug, PartialEq, Eq, Structural)]
pub enum LaunchMode {
    Windows,
    Wine,
}

/// Reads a launch mode from its lower-cased name.
pub fn parse_launch_mode(lowered: &str) -> (r: Option<LaunchMode>)
    ensures
        r == if lowered@ == "windows"@ {
            Some(LaunchMode::Windows)
        } else if lowered@ == "wine"@ {
            Some(LaunchMode::Wine)
        } else {
            None
        },
{
    if str_eq(lowered, "windows") {
        Some(LaunchMode::Windows)
    } else if str_eq(lowered, "wine") {
        Some(LaunchMode::Wine)
    } else {
        None
    }
}

/// The environment `m` after setting each pair of `pairs`, in order.
pub open spec fn env_with_pairs(m: Map<Seq<char>, Seq<char>>, pairs: Seq<(String, String)>) -> Map<
    Seq<char>,
    Seq<char>,
>
    decreases pairs.len(),
{
    if pairs.len() == 0 {
        m
    } else {
        env_with_pairs(m, pairs.drop_last()).insert(pairs.last().0@, pairs.last().1@)
    }
}

/// The environment `m` after removing each name of `keys`.
pub open spec fn env_without(m: Map<Seq<char>, Seq<char>>, keys: Seq<String>) -> Map<
    Seq<char>,
    Seq<char>,
>
    decreases keys.len(),
{
    if keys.len() == 0 {
        m
    } else {
        env_without(m, keys.drop_last()).remove(keys.last()@)
    }
}

/// Some name of `keys` is `k`.
pub open spec fn names_key(keys: Seq<String>, k: Seq<char>) -> bool {
    exists|i: int| 0 <= i < keys.len() && #[trigger] keys[i]@ == k
}

/// Some pair of `pairs` sets the name `k`.
pub open spec fn sets_key(pairs: Seq<(String, String)>, k: Seq<char>) -> bool {
    exists|j: int| 0 <= j < pairs.len() && #[trigger] pairs[j].0@ == k
}

/// Pair `j` of `pairs` is the last one that sets its name.
pub open spec fn last_setting(pairs: Seq<(String, String)>, j: int) -> bool {
    &&& 0 <= j < pairs.len()
    &&& forall|l: int| j < l < pairs.len() ==> #[trigger] pairs[l].0@ != pairs[j].0@
}

/// Removing names leaves exactly the names of `m` that are not among `keys`,
/// with their values.
pub proof fn lemma_env_without(m: Map<Seq<char>, Seq<char>>, keys: Seq<String>)
    ensures
        forall|k: Seq<char>| #[trigger] env_without(m, keys).dom().contains(k) <==> (m.dom().contains(k)
            && !names_key(keys, k)),
        forall|k: Seq<char>| env_without(m, keys).dom().contains(k) ==> #[trigger] env_without(m, keys)[k]
            == m[k],
    decreases keys.len(),
{
    if keys.len() > 0 {
        let front = keys.drop_last();
        lemma_env_without(m, front);
        assert forall|k: Seq<char>| names_key(keys, k) <==> (names_key(front, k) || keys.last()@ == k) by {
            if names_key(keys, k) {
                let i = choose|i: int| 0 <= i < keys.len() && #[trigger] keys[i]@ == k;
                if i < keys.len() - 1 {
                    assert(front[i]@ == k);
                }
            }
            if names_key(front, k) {
                let i = choose|i: int| 0 <= i < front.len() && #[trigger] front[i]@ == k;
                assert(keys[i]@ == k);
            }
            if keys.last()@ == k {
                assert(keys[keys.len() - 1]@ == k);
            }
        }
        let e = env_without(m, keys);
        let e0 = env_without(m, front);
        assert(e == e0.remove(keys.last()@));
        assert forall|k: Seq<char>| #[trigger] e.dom().contains(k) <==> (m.dom().contains(k) && !names_key(keys, k)) by {
            assert(e0.dom().contains(k) <==> (m.dom().contains(k) && !names_key(front, k)));
        }
        assert forall|k: Seq<char>| e.dom().contains(k) implies #[trigger] e[k] == m[k] by {
            assert(e0.dom().contains(k));
            assert(e0[k] == m[k]);
        }
    } else {
        assert forall|k: Seq<char>| !names_key(keys, k) by {}
    }
}

/// Setting pairs gives each set name the value of its last pair, and leaves
/// every other name as it was.
pub proof fn lemma_env_with_pairs(m: Map<Seq<char>, Seq<char>>, pairs: Seq<(String, String)>)
    ensures
        forall|k: Seq<char>| #[trigger] env_with_pairs(m, pairs).dom().contains(k) <==> (m.dom().contains(k)
            || sets_key(pairs, k)),
        forall|k: Seq<char>| m.dom().contains(k) && !sets_key(pairs, k) ==> #[trigger] env_with_pairs(m, pairs)[k]
            == m[k],
        forall|j: int| #[trigger] last_setting(pairs, j) ==> env_with_pairs(m, pairs)[pairs[j].0@]
            == pairs[j].1@,
    decreases pairs.len(),
{
    if pairs.len() > 0 {
        let front = pairs.drop_last();
        lemma_env_with_pairs(m, front);
        assert forall|k: Seq<char>| sets_key(pairs, k) <==> (sets_key(front, k) || pairs.last().0@ == k) by {
            if sets_key(pairs, k) {
                let i = choose|i: int| 0 <= i < pairs.len() && #[trigger] pairs[i].0@ == k;
                if i < pairs.len() - 1 {
                    assert(front[i].0@ == k);
                }
            }
            if sets_key(front, k) {
                let i = choose|i: int| 0 <= i < front.len() && #[trigger] front[i].0@ == k;
                assert(pairs[i].0@ == k);
            }
            if pairs.last().0@ == k {
                assert(pairs[pairs.len() - 1].0@ == k);
            }
        }
        let e = env_with_pairs(m, pairs);
        let e0 = env_with_pairs(m, front);
        assert(e == e0.insert(pairs.last().0@, pairs.last().1@));
        assert forall|k: Seq<char>| #[trigger] e.dom().contains(k) <==> (m.dom().contains(k) || sets_key(pairs, k)) by {
            assert(e0.dom().contains(k) <==> (m.dom().contains(k) || sets_key(front, k)));
        }
        assert forall|k: Seq<char>| m.dom().contains(k) && !sets_key(pairs, k) implies #[trigger] e[k] == m[k] by {
            assert(!sets_key(front, k));
            assert(e0[k] == m[k]);
        }
        assert forall|j: int| #[trigger] last_setting(pairs, j) implies env_with_pairs(m, pairs)[pairs[j].0@]
            == pairs[j].1@ by {
            if j < pairs.len() - 1 {
                assert(pairs[pairs.len() - 1].0@ != pairs[j].0@);
                assert(front[j] == pairs[j]);
                assert forall|l: int| j < l < front.len() implies #[trigger] front[l].0@ != front[j].0@ by {
                    assert(pairs[l].0@ != pairs[j].0@);
                }
                assert(last_setting(front, j));
            }
        }
    } else {
        assert forall|k: Seq<char>| !sets_key(pairs, k) by {}
    }
}

/// Sets each pair of `pairs` in `env`, in order.
fn set_env_pairs(env: &mut EnvVars, pairs: Vec<(String, String)>)
    ensures
        final(env).map() == env_with_pairs(old(env).map(), pairs@),
{
    let ghost m0 = env.map();
    let ghost ps = pairs@;
    for p in it: pairs
        invariant
            it.seq() == ps,
            env.map() == env_with_pairs(m0, ps.take(it.index() as int)),
    {
        proof {
            assert(ps.take(it.index() + 1).drop_last() =~= ps.take(it.index() as int));
        }
        let (k, v) = p;
        env.insert(k, v);
    }
    proof {
        assert(ps.take(ps.len() as int) =~= ps);
    }
}

/// Removes each name of `keys` from `env`.
fn unset_env_keys(env: &mut EnvVars, keys: Vec<String>)
    ensures
        final(env).map() == env_without(old(env).map(), keys@),
{
    let ghost m0 = env.map();
    let ghost ks = keys@;
    for k in it: keys
        invariant
            it.seq() == ks,
            env.map() == env_without(m0, ks.take(it.index() as int)),
    {
        proof {
            assert(ks.take(it.index() + 1).drop_last() =~= ks.take(it.index() as int));
        }
        env.remove(&k);
    }
    proof {
        assert(ks.take(ks.len() as int) =~= ks);
    }
}

/// `c` is the client that the arguments describe, for a mode whose
/// lower-cased name is `mode`.
pub open spec fn config_from_args(
    c: ClientConfigType,
    mode: Seq<char>,
    client_path: String,
    launcher_path: String,
    wine_prefix: Option<String>,
    env_vars: Seq<(String, String)>,
    windows_name: Seq<char>,
    wine_name: Seq<char>,
) -> bool {
    if mode == "windows"@ {
        &&& c matches ClientConfigType::Windows(w)
        &&& w.name@ == windows_name
        &&& w.client_path == client_path
        &&& w.dlls@.len() == 0
        &&& w.selected_dll is None
    } else {
        &&& c matches ClientConfigType::Wine(w)
        &&& w.name@ == wine_name
        &&& w.client_path == client_path
        &&& w.launch_command.program == launcher_path
        &&& w.launch_command.args@.len() == 0
        &&& w.launch_command.env.map() == env_with_pairs(
            Map::<Seq<char>, Seq<char>>::empty().insert("WINEPREFIX"@, wine_prefix->0@),
            env_vars,
        )
        &&& w.dlls@.len() == 0
        &&& w.selected_dll is None
    }
}

/// The error, if any, that building a client from these arguments gives, for
/// a mode whose lower-cased name is `lowered`.
pub open spec fn config_args_error(mode: Seq<char>, lowered: Seq<char>, wine_prefix: Option<String>) -> Option<CommandError> {
    if lowered == "windows"@ {
        None
    } else if lowered == "wine"@ {
        if wine_prefix is None {
            Some(CommandError::WinePrefixRequired)
        } else {
            None
        }
    } else {
        Some(CommandError::InvalidMode(arbitrary()))
    }
}

/// Builds the client that the command-line arguments describe; the mode is
/// read without regard to case.
pub fn client_config_from_args(
    mode: &str,
    client_path: String,
    launcher_path: String,
    wine_prefix: Option<String>,
    env_vars: Vec<(String, String)>,
    windows_name: &str,
    wine_name: &str,
) -> (r: Result<ClientConfigType, CommandError>)
    ensures
        ({
            let lowered = lowercase(mode@);
            &&& r is Err <==> config_args_error(mode@, lowered, wine_prefix) is Some
            &&& r matches Err(e) ==> (match e {
                CommandError::InvalidMode(m) => m@ == mode@ && lowered != "windows"@ && lowered
                    != "wine"@,
                CommandError::WinePrefixRequired => lowered == "wine"@ && wine_prefix is None,
                _ => false,
            })
            &&& r matches Ok(c) ==> config_from_args(
                c,
                lowered,
                client_path,
                launcher_path,
                wine_prefix,
                env_vars@,
                windows_name@,
                wine_name@,
            )
        }),
{
    let lowered = to_lowercase(mode);
    match parse_launch_mode(lowered.as_str()) {
        Some(LaunchMode::Windows) => Ok(
            ClientConfigType::Windows(
                WindowsClientConfig {
                    name: string_of(windows_name),
                    client_path,
                    dlls: Vec::new(),
                    selected_dll: None,
                },
            ),
        ),
        Some(LaunchMode::Wine) => {
            let prefix = match wine_prefix {
                Some(p) => p,
                None => {
                    return Err(CommandError::WinePrefixRequired);
                },
            };
            let ghost pv = prefix@;
            let mut env = EnvVars::new();
            env.insert(string_of("WINEPREFIX"), prefix);
            proof {
                assert(env.map() == Map::<Seq<char>, Seq<char>>::empty().insert("WINEPREFIX"@, pv));
            }
            set_env_pairs(&mut env, env_vars);
            Ok(
                ClientConfigType::Wine(
                    WineClientConfig {
                        name: string_of(wine_name),
                        client_path,
                        launch_command: LaunchCommand { program: launcher_path, args: Vec::new(), env },
                        dlls: Vec::new(),
                        selected_dll: None,
                    },
                ),
            )
        },
        None => Err(CommandError::InvalidMode(string_of(mode))),
    }
}

/// Adds a client described by the command-line arguments, selects it and
/// marks the settings as configured. Returns the new client's index.
pub fn client_add(
    settings: &mut AlembicSettings,
    mode: &str,
    client_path: String,
    launcher_path: String,
    wine_prefix: Option<String>,
    env_vars: Vec<(String, String)>,
) -> (r: Result<usize, CommandError>)
    ensures
        old(settings).selections_valid() ==> final(settings).selections_valid(),
        ({
            let lowered = lowercase(mode@);
            &&& r is Err <==> config_args_error(mode@, lowered, wine_prefix) is Some
            &&& r matches Err(e) ==> (match e {
                CommandError::InvalidMode(m) => m@ == mode@ && lowered != "windows"@ && lowered
                    != "wine"@,
                CommandError::WinePrefixRequired => lowered == "wine"@ && wine_prefix is None,
                _ => false,
            })
            &&& r is Err ==> *final(settings) == *old(settings)
            &&& r matches Ok(n) ==> {
                &&& n == old(settings).clients@.len()
                &&& final(settings).clients@.len() == n + 1
                &&& final(settings).clients@.take(n as int) == old(settings).clients@
                &&& config_from_args(
                    final(settings).clients@[n as int],
                    lowered,
                    client_path,
                    launcher_path,
                    wine_prefix,
                    env_vars@,
                    "Manual Windows client"@,
                    "Manual Wine client"@,
                )
                &&& final(settings).selected_client == Some(n)
                &&& final(settings).is_configured
                &&& same_but_clients(*final(settings), *old(settings))
            }
        }),
{
    let config = client_config_from_args(
        mode,
        client_path,
        launcher_path,
        wine_prefix,
        env_vars,
        "Manual Windows client",
        "Manual Wine client",
    )?;
    let n = settings.clients.len();
    settings.add_client(config, true);
    settings.is_configured = true;
    proof {
        assert(settings.clients@.take(n as int) =~= old(settings).clients@);
    }
    Ok(n)
}

/// One line of a client listing.
pub struct ClientRow {
    pub index: usize,
    pub selected: bool,
    pub name: String,
    pub is_wine: bool,
}

/// Lists the clients, marking the selected one.
pub fn client_list(settings: &AlembicSettings) -> (rows: Vec<ClientRow>)
    ensures
        rows@.len() == settings.clients@.len(),
        forall|k: int|
            0 <= k < rows@.len() ==> {
                &&& (#[trigger] rows@[k]).index == k
                &&& rows@[k].selected == (settings.selected_client == Some(k as usize))
                &&& rows@[k].name@ == settings.clients@[k].name_of()
                &&& rows@[k].is_wine == (settings.clients@[k] is Wine)
            },
{
    let mut rows: Vec<ClientRow> = Vec::new();
    let mut i: usize = 0;
    while i < settings.clients.len()
        invariant
            i <= settings.clients@.len(),
            rows@.len() == i,
            forall|k: int|
                0 <= k < rows@.len() ==> {
                    &&& (#[trigger] rows@[k]).index == k
                    &&& rows@[k].selected == (settings.selected_client == Some(k as usize))
                    &&& rows@[k].name@ == settings.clients@[k].name_of()
                    &&& rows@[k].is_wine == (settings.clients@[k] is Wine)
                },
        decreases settings.clients@.len() - i,
    {
        let c = &settings.clients[i];
        rows.push(
            ClientRow {
                index: i,
                selected: settings.selected_client == Some(i),
                name: c.name().clone(),
                is_wine: c.is_wine(),
            },
        );
        i = i + 1;
    }
    rows
}

/// Selects client `index`.
pub fn client_select(settings: &mut AlembicSettings, index: usize) -> (r: Result<(), CommandError>)
    ensures
        old(settings).selections_valid() ==> final(settings).selections_valid(),
        r is Err <==> index >= old(settings).clients@.len(),
        r matches Err(e) ==> e == CommandError::InvalidClientIndex(index),
        r is Err ==> *final(settings) == *old(settings),
        r is Ok ==> final(settings).selected_client == Some(index),
        r is Ok ==> final(settings).clients == old(settings).clients,
        r is Ok ==> final(settings).is_configured == old(settings).is_configured,
        r is Ok ==> same_but_clients(*final(settings), *old(settings)),
{
    if index >= settings.clients.len() {
        return Err(CommandError::InvalidClientIndex(index));
    }
    settings.selected_client = Some(index);
    Ok(())
}

/// Clears the client selection; returns whether a client was selected.
pub fn client_reset(settings: &mut AlembicSettings) -> (was_selected: bool)
    ensures
        old(settings).selections_valid() ==> final(settings).selections_valid(),
        was_selected == (old(settings).selected_client is Some),
        final(settings).selected_client is None,
        final(settings).clients == old(settings).clients,
        final(settings).is_configured == old(settings).is_configured,
        same_but_clients(*final(settings), *old(settings)),
{
    let was_selected = settings.selected_client.is_some();
    settings.selected_client = None;
    was_selected
}

/// Removes client `index`; the selection keeps pointing at the same client
/// (or at none), and the settings count as configured while a client remains.
pub fn client_remove(settings: &mut AlembicSettings, index: usize) -> (r: Result<(), CommandError>)
    ensures
        old(settings).selections_valid() ==> final(settings).selections_valid(),
        r is Err <==> index >= old(settings).clients@.len(),
        r matches Err(e) ==> e == CommandError::InvalidClientIndex(index),
        r is Err ==> *final(settings) == *old(settings),
        r is Ok ==> final(settings).clients@ == old(settings).clients@.remove(index as int),
        r is Ok ==> final(settings).selected_client == selection_after_remove(
            old(settings).selected_client,
            index,
        ),
        r is Ok ==> final(settings).is_configured == (final(settings).clients@.len() > 0),
        r is Ok ==> same_but_clients(*final(settings), *old(settings)),
{
    if index >= settings.clients.len() {
        return Err(CommandError::InvalidClientIndex(index));
    }
    settings.remove_client(index);
    settings.is_configured = settings.clients.len() > 0;
    Ok(())
}

/// `new` is `old` edited by the given fields; a Windows client has no launch
/// command, so the launch-command fields leave it unchanged.
pub open spec fn client_edited(
    new: ClientConfigType,
    old: ClientConfigType,
    name: Option<String>,
    client_path: Option<String>,
    wrapper_program: Option<String>,
    args: Seq<String>,
    clear_args: bool,
    env_vars: Seq<(String, String)>,
    unset_env_vars: Seq<String>,
) -> bool {
    match (new, old) {
        (ClientConfigType::Windows(n), ClientConfigType::Windows(o)) => {
            &&& n.name == or_keep(name, o.name)
            &&& n.client_path == or_keep(client_path, o.client_path)
            &&& n.dlls == o.dlls
            &&& n.selected_dll == o.selected_dll
        },
        (ClientConfigType::Wine(n), ClientConfigType::Wine(o)) => {
            &&& n.name == or_keep(name, o.name)
            &&& n.client_path == or_keep(client_path, o.client_path)
            &&& n.launch_command.program == or_keep(wrapper_program, o.launch_command.program)
            &&& n.launch_command.args@ == if clear_args {
                args
            } else {
                o.launch_command.args@ + args
            }
            &&& n.launch_command.env.map() == env_with_pairs(
                env_without(o.launch_command.env.map(), unset_env_vars),
                env_vars,
            )
            &&& n.dlls == o.dlls
            &&& n.selected_dll == o.selected_dll
        },
        _ => false,
    }
}

/// Appends `extra` to `v`.
fn append_all(v: &mut Vec<String>, extra: Vec<String>)
    ensures
        final(v)@ == old(v)@ + extra@,
{
    let ghost v0 = v@;
    let ghost xs = extra@;
    for x in it: extra
        invariant
            it.seq() == xs,
            v@ == v0 + xs.take(it.index() as int),
    {
        proof {
            assert(xs.take(it.index() + 1) =~= xs.take(it.index() as int).push(xs[it.index() as int]));
        }
        v.push(x);
    }
    proof {
        assert(xs.take(xs.len() as int) =~= xs);
    }
}

/// Edits the given fields of client `index`.
pub fn client_edit(
    settings: &mut AlembicSettings,
    index: usize,
    name: Option<String>,
    client_path: Option<String>,
    wrapper_program: Option<String>,
    args: Vec<String>,
    clear_args: bool,
    env_vars: Vec<(String, String)>,
    unset_env_vars: Vec<String>,
) -> (r: Result<EditOutcome, CommandError>)
    ensures
        old(settings).selections_valid() ==> final(settings).selections_valid(),
        r is Err <==> index >= old(settings).clients@.len(),
        r matches Err(e) ==> e == CommandError::InvalidClientIndex(index),
        r is Err ==> *final(settings) == *old(settings),
        r matches Ok(o) ==> (o == EditOutcome::NoChanges <==> (name is None && client_path is None
            && wrapper_program is None && args@.len() == 0 && !clear_args && env_vars@.len() == 0
            && unset_env_vars@.len() == 0)),
        r == Ok::<EditOutcome, CommandError>(EditOutcome::NoChanges) ==> *final(settings) == *old(
            settings),
        r == Ok::<EditOutcome, CommandError>(EditOutcome::Updated) ==> {
            &&& final(settings).clients@.len() == old(settings).clients@.len()
            &&& forall|i: int|
                0 <= i < old(settings).clients@.len() && i != index ==> #[trigger] final(
                    settings).clients@[i] == old(settings).clients@[i]
            &&& client_edited(
                final(settings).clients@[index as int],
                old(settings).clients@[index as int],
                name,
                client_path,
                wrapper_program,
                args@,
                clear_args,
                env_vars@,
                unset_env_vars@,
            )
        },
        (r == Ok::<EditOutcome, CommandError>(EditOutcome::Updated) && old(settings).clients@[index as int] is Wine)
            ==> final(settings).clients@[index as int] is Wine,
        (r == Ok::<EditOutcome, CommandError>(EditOutcome::Updated) && old(settings).clients@[index as int] is Wine)
            ==> forall|i: int|
            0 <= i < unset_env_vars@.len() && !sets_key(env_vars@, unset_env_vars@[i]@) ==> !final(
                settings).clients@[index as int]->Wine_0.launch_command.env.map().dom().contains(
                #[trigger] unset_env_vars@[i]@,
            ),
        (r == Ok::<EditOutcome, CommandError>(EditOutcome::Updated) && old(settings).clients@[index as int] is Wine)
            ==> forall|j: int|
            #[trigger] last_setting(env_vars@, j) ==> final(
                settings).clients@[index as int]->Wine_0.launch_command.env.map().dom().contains(env_vars@[j].0@)
                && final(settings).clients@[index as int]->Wine_0.launch_command.env.map()[env_vars@[j].0@]
                == env_vars@[j].1@,
        (r == Ok::<EditOutcome, CommandError>(EditOutcome::Updated) && old(settings).clients@[index as int] is Wine)
            ==> forall|k: Seq<char>|
            !names_key(unset_env_vars@, k) && !sets_key(env_vars@, k) ==> (#[trigger] final(
                settings).clients@[index as int]->Wine_0.launch_command.env.map().dom().contains(k)
                <==> old(settings).clients@[index as int]->Wine_0.launch_command.env.map().dom().contains(k)),
        (r == Ok::<EditOutcome, CommandError>(EditOutcome::Updated) && old(settings).clients@[index as int] is Wine)
            ==> forall|k: Seq<char>|
            !names_key(unset_env_vars@, k) && !sets_key(env_vars@, k) && old(
                settings).clients@[index as int]->Wine_0.launch_command.env.map().dom().contains(k) ==> #[trigger] final(
                settings).clients@[index as int]->Wine_0.launch_command.env.map()[k] == old(
                settings).clients@[index as int]->Wine_0.launch_command.env.map()[k],
        r is Ok ==> final(settings).selected_client == old(settings).selected_client,
        r is Ok ==> final(settings).is_configured == old(settings).is_configured,
        r is Ok ==> same_but_clients(*final(settings), *old(settings)),
{
    if index >= settings.clients.len() {
        return Err(CommandError::InvalidClientIndex(index));
    }
    if name.is_none() && client_path.is_none() && wrapper_program.is_none() && args.len() == 0
        && !clear_args && env_vars.len() == 0 && unset_env_vars.len() == 0 {
        return Ok(EditOutcome::NoChanges);
    }
    let ghost old_clients = settings.clients@;
    let client = settings.clients.remove(index);
    let edited = match client {
        ClientConfigType::Windows(mut c) => {
            match name {
                Some(n) => c.name = n,
                None => {},
            }
            match client_path {
                Some(p) => c.client_path = p,
                None => {},
            }
            ClientConfigType::Windows(c)
        },
        ClientConfigType::Wine(mut c) => {
            match name {
                Some(n) => c.name = n,
                None => {},
            }
            match client_path {
                Some(p) => c.client_path = p,
                None => {},
            }
            match wrapper_program {
                Some(w) => c.launch_command.program = w,
                None => {},
            }
            if clear_args {
                c.launch_command.args = Vec::new();
            }
            append_all(&mut c.launch_command.args, args);
            unset_env_keys(&mut c.launch_command.env, unset_env_vars);
            set_env_pairs(&mut c.launch_command.env, env_vars);
            ClientConfigType::Wine(c)
        },
    };
    settings.clients.insert(index, edited);
    proof {
        assert forall|i: int|
            0 <= i < old_clients.len() && i != index implies #[trigger] settings.clients@[i]
            == old_clients[i] by {
            if i < index {
            } else {
            }
        }
        assert(settings.clients@[index as int].dlls_of() == old_clients[index as int].dlls_of());
        assert(settings.clients@[index as int].selected_dll_of() == old_clients[index as int].selected_dll_of());
        assert forall|i: int| 0 <= i < settings.clients@.len() implies selection_valid(
            #[trigger] settings.clients@[i].selected_dll_of(),
            settings.clients@[i].dlls_of().len(),
        ) || !old(settings).selections_valid() by {
            if old(settings).selections_valid() {
                assert(selection_valid(old_clients[i].selected_dll_of(), old_clients[i].dlls_of().len()));
            }
        }
        if old_clients[index as int] is Wine {
            crate::laws::law_client_edit_env(
                settings.clients@[index as int],
                old_clients[index as int],
                name,
                client_path,
                wrapper_program,
                args@,
                clear_args,
                env_vars@,
                unset_env_vars@,
            );
        }
    }
    Ok(EditOutcome::Updated)
}

// ---------------------------------------------------------------------------
// DLLs of a client
// ---------------------------------------------------------------------------

/// Reads a DLL type from its lower-cased name.
pub fn parse_dll_type(lowered: &str) -> (r: Option<DllType>)
    ensures
        r == if lowered@ == "alembic"@ {
            Some(DllType::Alembic)
        } else if lowered@ == "decal"@ {
            Some(DllType::Decal)
        } else {
            None
        },
{
    if str_eq(lowered, "alembic") {
        Some(DllType::Alembic)
    } else if str_eq(lowered, "decal") {
        Some(DllType::Decal)
    } else {
        None
    }
}

/// One line of a DLL listing.
pub struct DllRow {
    pub index: usize,
    pub selected: bool,
    pub dll_path: String,
    pub dll_type: DllType,
}

/// Lists the DLLs of client `client`, marking the selected one.
pub fn client_dll_list(settings: &AlembicSettings, client: usize) -> (r: Result<Vec<DllRow>, CommandError>)
    ensures
        r is Err <==> client >= settings.clients@.len(),
        r matches Err(e) ==> e == CommandError::InvalidClientIndex(client),
        r matches Ok(rows) ==> {
            let c = settings.clients@[client as int];
            &&& rows@.len() == c.dlls_of().len()
            &&& forall|k: int|
                0 <= k < rows@.len() ==> {
                    &&& (#[trigger] rows@[k]).index == k
                    &&& rows@[k].selected == (c.selected_dll_of() == Some(k as usize))
                    &&& rows@[k].dll_path == c.dlls_of()[k].dll_path
                    &&& rows@[k].dll_type == c.dlls_of()[k].dll_type
                }
        },
{
    if client >= settings.clients.len() {
        return Err(CommandError::InvalidClientIndex(client));
    }
    let c = &settings.clients[client];
    let dlls = c.dlls();
    let sel = c.selected_dll();
    let mut rows: Vec<DllRow> = Vec::new();
    let mut i: usize = 0;
    while i < dlls.len()
        invariant
            dlls@ == c.dlls_of(),
            sel == c.selected_dll_of(),
            i <= dlls@.len(),
            rows@.len() == i,
            forall|k: int|
                0 <= k < rows@.len() ==> {
                    &&& (#[trigger] rows@[k]).index == k
                    &&& rows@[k].selected == (sel == Some(k as usize))
                    &&& rows@[k].dll_path == dlls@[k].dll_path
                    &&& rows@[k].dll_type == dlls@[k].dll_type
                },
        decreases dlls@.len() - i,
    {
        rows.push(
            DllRow {
                index: i,
                selected: sel == Some(i),
                dll_path: dlls[i].dll_path.clone(),
                dll_type: dlls[i].dll_type,
            },
        );
        i = i + 1;
    }
    Ok(rows)
}

/// The DLLs of client `index`, with the selected one marked (what
/// `client show` lists below the client).
pub fn client_show(settings: &AlembicSettings, index: usize) -> (r: Result<Vec<DllRow>, CommandError>)
    ensures
        r is Err <==> index >= settings.clients@.len(),
        r matches Err(e) ==> e == CommandError::InvalidClientIndex(index),
        r matches Ok(rows) ==> {
            let c = settings.clients@[index as int];
            &&& rows@.len() == c.dlls_of().len()
            &&& forall|k: int|
                0 <= k < rows@.len() ==> {
                    &&& (#[trigger] rows@[k]).index == k
                    &&& rows@[k].selected == (c.selected_dll_of() == Some(k as usize))
                    &&& rows@[k].dll_path == c.dlls_of()[k].dll_path
                    &&& rows@[k].dll_type == c.dlls_of()[k].dll_type
                }
        },
{
    client_dll_list(settings, index)
}

/// The startup function a new DLL gets: the given one, else `DecalStartup`
/// for Decal and none for Alembic.
pub open spec fn default_startup(given: Option<String>, dll_type: DllType) -> Option<Seq<char>> {
    match given {
        Some(f) => Some(f@),
        None => match dll_type {
            DllType::Decal => Some("DecalStartup"@),
            DllType::Alembic => None,
        },
    }
}

/// The view of an optional string.
pub open spec fn opt_view(s: Option<String>) -> Option<Seq<char>> {
    match s {
        Some(v) => Some(v@),
        None => None,
    }
}

/// Adds a DLL to client `client`; the type is read without regard to case.
pub fn client_dll_add(
    settings: &mut AlembicSettings,
    client: usize,
    dll_type: &str,
    dll_path: String,
    startup_function: Option<String>,
) -> (r: Result<(), CommandError>)
    ensures
        old(settings).selections_valid() ==> final(settings).selections_valid(),
        ({
            let lowered = lowercase(dll_type@);
            let t = if lowered == "decal"@ {
                DllType::Decal
            } else {
                DllType::Alembic
            };
            &&& r is Err <==> (client >= old(settings).clients@.len() || (lowered != "alembic"@
                && lowered != "decal"@))
            &&& r matches Err(e) ==> (match e {
                CommandError::InvalidClientIndex(i) => i == client && client >= old(
                    settings).clients@.len(),
                CommandError::InvalidDllType(s) => s@ == dll_type@ && client < old(
                    settings).clients@.len(),
                _ => false,
            })
            &&& r is Err ==> *final(settings) == *old(settings)
            &&& r is Ok ==> {
                let oc = old(settings).clients@[client as int];
                let nc = final(settings).clients@[client as int];
                &&& final(settings).clients@.len() == old(settings).clients@.len()
                &&& forall|i: int|
                    0 <= i < old(settings).clients@.len() && i != client ==> #[trigger] final(
                        settings).clients@[i] == old(settings).clients@[i]
                &&& nc.dlls_of().len() == oc.dlls_of().len() + 1
                &&& nc.dlls_of().drop_last() == oc.dlls_of()
                &&& nc.dlls_of().last().dll_type == t
                &&& nc.dlls_of().last().dll_path == dll_path
                &&& opt_view(nc.dlls_of().last().startup_function) == default_startup(
                    startup_function,
                    t,
                )
                &&& startup_function matches Some(f) ==> opt_view(nc.dlls_of().last().startup_function)
                    == Some(f@)
                &&& (startup_function is None && t == DllType::Decal) ==> opt_view(
                    nc.dlls_of().last().startup_function,
                ) == Some("DecalStartup"@)
                &&& (startup_function is None && t == DllType::Alembic) ==> nc.dlls_of().last().startup_function is None
                &&& nc.selected_dll_of() == oc.selected_dll_of()
                &&& nc.same_but_dlls(oc)
                &&& final(settings).selected_client == old(settings).selected_client
                &&& final(settings).is_configured == old(settings).is_configured
                &&& same_but_clients(*final(settings), *old(settings))
            }
        }),
{
    if client >= settings.clients.len() {
        return Err(CommandError::InvalidClientIndex(client));
    }
    proof {
        lemma_names_distinct();
    }
    let lowered = to_lowercase(dll_type);
    let t = match parse_dll_type(lowered.as_str()) {
        Some(t) => t,
        None => {
            return Err(CommandError::InvalidDllType(string_of(dll_type)));
        },
    };
    let startup = match startup_function {
        Some(f) => Some(f),
        None => match t {
            DllType::Decal => Some(string_of("DecalStartup")),
            DllType::Alembic => None,
        },
    };
    let dll = InjectConfig { dll_type: t, dll_path, startup_function: startup };
    settings.add_dll_to_client(client, dll);

    proof {
        let nc = settings.clients@[client as int];
        assert(nc.dlls_of().drop_last() =~= old(settings).clients@[client as int].dlls_of());
    }
    Ok(())
}

/// What selecting a DLL did.
#[derive(Debug, PartialEq, Eq, Structural)]
pub enum DllSelection {
    Selected,
    /// The DLL index was out of range; nothing changed.
    NoSuchDll,
}

/// Selects DLL `dll` of client `client`.
pub fn client_dll_select(settings: &mut AlembicSettings, client: usize, dll: usize) -> (r: Result<
    DllSelection,
    CommandError,
>)
    ensures
        old(settings).selections_valid() ==> final(settings).selections_valid(),
        r is Err <==> client >= old(settings).clients@.len(),
        r matches Err(e) ==> e == CommandError::InvalidClientIndex(client),
        r matches Ok(o) ==> (o == DllSelection::NoSuchDll <==> dll >= old(
            settings).clients@[client as int].dlls_of().len()),
        (r is Err || r == Ok::<DllSelection, CommandError>(DllSelection::NoSuchDll)) ==> *final(
            settings) == *old(settings),
        r == Ok::<DllSelection, CommandError>(DllSelection::Selected) ==> {
            &&& final(settings).clients@.len() == old(settings).clients@.len()
            &&& forall|i: int|
                0 <= i < old(settings).clients@.len() && i != client ==> #[trigger] final(
                    settings).clients@[i] == old(settings).clients@[i]
            &&& final(settings).clients@[client as int].selected_dll_of() == Some(dll)
            &&& final(settings).clients@[client as int].dlls_of() == old(
                settings).clients@[client as int].dlls_of()
            &&& final(settings).clients@[client as int].same_but_dlls(
                old(settings).clients@[client as int],
            )
            &&& final(settings).selected_client == old(settings).selected_client
            &&& final(settings).is_configured == old(settings).is_configured
            &&& same_but_clients(*final(settings), *old(settings))
        },
{
    let count = match settings.get_client_dlls(client) {
        Some(dlls) => dlls.len(),
        None => {
            return Err(CommandError::InvalidClientIndex(client));
        },
    };
    if dll >= count {
        return Ok(DllSelection::NoSuchDll);
    }
    settings.select_dll_for_client(client, Some(dll));
    Ok(DllSelection::Selected)
}

/// Clears the DLL selection of client `client`; returns whether it had one.
pub fn client_dll_reset(settings: &mut AlembicSettings, client: usize) -> (was_selected: bool)
    ensures
        old(settings).selections_valid() ==> final(settings).selections_valid(),
        was_selected == (client < old(settings).clients@.len() && old(
            settings).clients@[client as int].selected_dll_of() is Some),
        final(settings).clients@.len() == old(settings).clients@.len(),
        forall|i: int|
            0 <= i < old(settings).clients@.len() && i != client ==> #[trigger] final(
                settings).clients@[i] == old(settings).clients@[i],
        client < old(settings).clients@.len() ==> {
            &&& final(settings).clients@[client as int].selected_dll_of() is None
            &&& final(settings).clients@[client as int].dlls_of() == old(
                settings).clients@[client as int].dlls_of()
            &&& final(settings).clients@[client as int].same_but_dlls(
                old(settings).clients@[client as int],
            )
        },
        final(settings).selected_client == old(settings).selected_client,
        final(settings).is_configured == old(settings).is_configured,
        same_but_clients(*final(settings), *old(settings)),
{
    let was_selected = client < settings.clients.len() && settings.clients[client].selected_dll().is_some();
    settings.select_dll_for_client(client, None);
    was_selected
}

/// Removes DLL `dll` of client `client`, keeping that client's selection on
/// the same DLL; returns whether there was such a DLL.
pub fn client_dll_remove(settings: &mut AlembicSettings, client: usize, dll: usize) -> (r: bool)
    ensures
        old(settings).selections_valid() ==> final(settings).selections_valid(),
        r == (client < old(settings).clients@.len() && dll < old(
            settings).clients@[client as int].dlls_of().len()),
        !r ==> *final(settings) == *old(settings),
        final(settings).clients@.len() == old(settings).clients@.len(),
        forall|i: int|
            0 <= i < old(settings).clients@.len() && i != client ==> #[trigger] final(
                settings).clients@[i] == old(settings).clients@[i],
        r ==> final(settings).clients@[client as int].dlls_of() == old(
            settings).clients@[client as int].dlls_of().remove(dll as int),
        r ==> final(settings).clients@[client as int].selected_dll_of() == selection_after_remove(
            old(settings).clients@[client as int].selected_dll_of(),
            dll,
        ),
        r ==> final(settings).clients@[client as int].same_but_dlls(
            old(settings).clients@[client as int],
        ),
        final(settings).selected_client == old(settings).selected_client,
        final(settings).is_configured == old(settings).is_configured,
        same_but_clients(*final(settings), *old(settings)),
{
    settings.remove_dll_from_client(client, dll)
}

/// DLL `dll` of client `client`, if both exist.
pub fn client_dll_show(settings: &AlembicSettings, client: usize, dll: usize) -> (r: Option<&InjectConfig>)
    ensures
        match r {
            Some(d) => client < settings.clients@.len() && dll < settings.clients@[client as int].dlls_of().len()
                && *d == settings.clients@[client as int].dlls_of()[dll as int],
            None => !(client < settings.clients@.len() && dll < settings.clients@[client as int].dlls_of().len()),
        },
{
    match settings.get_client_dlls(client) {
        Some(dlls) => if dll < dlls.len() {
            Some(&dlls[dll])
        } else {
            None
        },
        None => None,
    }
}

/// What a DLL edit did.
#[derive(Debug, PartialEq, Eq, Structural)]
pub enum DllEditOutcome {
    /// No field was given, so nothing was changed.
    NoChanges,
    /// The given fields were written; `type_ignored` tells that the given
    /// type was neither `alembic` nor `decal` and was left as it was.
    Updated { type_ignored: bool },
}

/// The startup function after an edit: unchanged when none is given, removed
/// when the given one is empty or `none`, else the given one.
pub open spec fn edited_startup(given: Option<String>, old: Option<String>) -> Option<Seq<char>> {
    match given {
        Some(f) => if f@ == Seq::<char>::empty() || f@ == "none"@ {
            None
        } else {
            Some(f@)
        },
        None => opt_view(old),
    }
}

/// Edits the given fields of DLL `dll` of client `client`; the type is read
/// without regard to case and ignored when it is neither `alembic` nor `decal`.
pub fn client_dll_edit(
    settings: &mut AlembicSettings,
    client: usize,
    dll: usize,
    dll_type: Option<String>,
    path: Option<String>,
    startup_function: Option<String>,
) -> (r: Result<DllEditOutcome, CommandError>)
    ensures
        old(settings).selections_valid() ==> final(settings).selections_valid(),
        r is Err <==> !(client < old(settings).clients@.len() && dll < old(
            settings).clients@[client as int].dlls_of().len()),
        r matches Err(e) ==> e == CommandError::InvalidDllIndex(dll),
        r is Err ==> *final(settings) == *old(settings),
        r matches Ok(o) ==> (o == DllEditOutcome::NoChanges <==> (dll_type is None && path is None
            && startup_function is None)),
        r == Ok::<DllEditOutcome, CommandError>(DllEditOutcome::NoChanges) ==> *final(settings)
            == *old(settings),
        r matches Ok(DllEditOutcome::Updated { type_ignored }) ==> {
            let oc = old(settings).clients@[client as int];
            let nc = final(settings).clients@[client as int];
            let od = oc.dlls_of()[dll as int];
            let nd = nc.dlls_of()[dll as int];
            let lowered = lowercase(dll_type->0@);
            &&& type_ignored == (dll_type is Some && lowered != "alembic"@ && lowered != "decal"@)
            &&& final(settings).clients@.len() == old(settings).clients@.len()
            &&& forall|i: int|
                0 <= i < old(settings).clients@.len() && i != client ==> #[trigger] final(
                    settings).clients@[i] == old(settings).clients@[i]
            &&& nc.dlls_of().len() == oc.dlls_of().len()
            &&& forall|j: int|
                0 <= j < oc.dlls_of().len() && j != dll ==> #[trigger] nc.dlls_of()[j]
                    == oc.dlls_of()[j]
            &&& nd.dll_type == if dll_type is Some && lowered == "alembic"@ {
                DllType::Alembic
            } else if dll_type is Some && lowered == "decal"@ {
                DllType::Decal
            } else {
                od.dll_type
            }
            &&& nd.dll_path == or_keep(path, od.dll_path)
            &&& opt_view(nd.startup_function) == edited_startup(startup_function, od.startup_function)
            &&& startup_function is None ==> nd.startup_function == od.startup_function
            &&& startup_function matches Some(f) ==> (nd.startup_function is None <==> (f@
                == Seq::<char>::empty() || f@ == "none"@))
            &&& startup_function matches Some(f) ==> (f@ != Seq::<char>::empty() && f@ != "none"@
                ==> opt_view(nd.startup_function) == Some(f@))
            &&& nc.selected_dll_of() == oc.selected_dll_of()
            &&& nc.same_but_dlls(oc)
            &&& final(settings).selected_client == old(settings).selected_client
            &&& final(settings).is_configured == old(settings).is_configured
            &&& same_but_clients(*final(settings), *old(settings))
        },
{
    let exists = match settings.get_client_dlls(client) {
        Some(dlls) => dll < dlls.len(),
        None => false,
    };
    if !exists {
        return Err(CommandError::InvalidDllIndex(dll));
    }
    if dll_type.is_none() && path.is_none() && startup_function.is_none() {
        return Ok(DllEditOutcome::NoChanges);
    }
    let ghost oc = settings.clients@[client as int];
    let mut c = settings.clients.remove(client);
    let placeholder = InjectConfig { dll_type: DllType::Alembic, dll_path: String::new(), startup_function: None };
    let mut d = c.replace_dll(dll, placeholder);
    let ghost od = d;
    let mut type_ignored = false;
    match dll_type {
        Some(t) => {
            proof {
                lemma_names_distinct();
            }
            let lowered = to_lowercase(t.as_str());
            match parse_dll_type(lowered.as_str()) {
                Some(parsed) => d.dll_type = parsed,
                None => type_ignored = true,
            }
        },
        None => {},
    }
    match path {
        Some(p) => d.dll_path = p,
        None => {},
    }
    match startup_function {
        Some(f) => {
            proof {
                lemma_names_distinct();
            }
            if str_eq(f.as_str(), "") || str_eq(f.as_str(), "none") {
                d.startup_function = None;
            } else {
                d.startup_function = Some(f);
            }
        },
        None => {},
    }
    c.replace_dll(dll, d);
    settings.clients.insert(client, c);
    proof {
        assert(c.dlls_of() =~= oc.dlls_of().update(dll as int, d));
        assert forall|i: int|
            0 <= i < old(settings).clients@.len() && i != client implies #[trigger] settings.clients@[i]
            == old(settings).clients@[i] by {
            if i < client {
            } else {
            }
        }
    }
    Ok(DllEditOutcome::Updated { type_ignored })
}

// ---------------------------------------------------------------------------
// Scanning for DLLs
// ---------------------------------------------------------------------------

/// Client `client` has a DLL at `path`.
pub open spec fn dll_configured_at(settings: AlembicSettings, client: usize, path: Seq<char>) -> bool {
    client < settings.clients@.len() && exists|i: int|
        0 <= i < settings.clients@[client as int].dlls_of().len()
            && #[trigger] settings.clients@[client as int].dlls_of()[i].dll_path@ == path
}

/// Whether client `client` already has a DLL at `path` (a discovered DLL
/// there is skipped as already configured).
pub fn dll_configured(settings: &AlembicSettings, client: usize, path: &String) -> (r: bool)
    ensures
        r == dll_configured_at(*settings, client, path@),
{
    match settings.get_client_dlls(client) {
        None => false,
        Some(dlls) => {
            let mut i: usize = 0;
            while i < dlls.len()
                invariant
                    i <= dlls@.len(),
                    client < settings.clients@.len(),
                    dlls@ == settings.clients@[client as int].dlls_of(),
                    forall|j: int| 0 <= j < i ==> #[trigger] dlls@[j].dll_path@ != path@,
                decreases dlls@.len() - i,
            {
                if dlls[i].dll_path == *path {
                    assert(settings.clients@[client as int].dlls_of()[i as int].dll_path@ == path@);
                    return true;
                }
                i = i + 1;
            }
            false
        },
    }
}

/// Whether an answer to "Add this DLL ...? (y/n)" accepts: `y` or `yes`,
/// in any case, around white space.
pub fn is_yes(answer: &str) -> (r: bool)
    ensures
        r == (lowercase(trim(answer@)) == "y"@ || lowercase(trim(answer@)) == "yes"@),
{
    let t = trim_str(answer);
    let l = to_lowercase(t.as_str());
    str_eq(l.as_str(), "y") || str_eq(l.as_str(), "yes")
}

/// Adds an accepted DLL to client `client`. When the client then has no DLL
/// selected and this is the first DLL added by the scan, the client's first
/// DLL is selected.
pub fn accept_scanned_dll(settings: &mut AlembicSettings, client: usize, dll: InjectConfig, first_added: bool)
    requires
        client < old(settings).clients@.len(),
    ensures
        old(settings).selections_valid() ==> final(settings).selections_valid(),
        crate::widgets::dlls::client_dlls_set(
            *final(settings),
            *old(settings),
            client as int,
            old(settings).clients@[client as int].dlls_of().push(dll),
            if old(settings).clients@[client as int].selected_dll_of() is None && first_added {
                Some(0usize)
            } else {
                old(settings).clients@[client as int].selected_dll_of()
            },
        ),
{
    settings.add_dll_to_client(client, dll);
    if settings.clients[client].selected_dll().is_none() && first_added {
        settings.select_dll_for_client(client, Some(0));
    }
    proof {
        if old(settings).selections_valid() {
            crate::widgets::dlls::lemma_client_dlls_set_valid(
                *settings,
                *old(settings),
                client as int,
                old(settings).clients@[client as int].dlls_of().push(dll),
                if old(settings).clients@[client as int].selected_dll_of() is None && first_added {
                    Some(0usize)
                } else {
                    old(settings).clients@[client as int].selected_dll_of()
                },
            );
        }
    }
}


/// What a scan did with one thing it found.
#[derive(Clone, Copy, Debug, PartialEq, Eq, Structural)]
pub enum ScanOutcome {
    /// It was already configured, so it was skipped without asking.
    AlreadyConfigured,
    /// The user accepted it and it was added.
    Added,
    /// The user declined it.
    Declined,
}

/// One DLL of `client dll scan`: a DLL at a path the client already has is
/// skipped; else, when the user accepted it (`accepted`), it is added, the
/// first DLL added by the scan (`added` counts those before) selecting the
/// client's first DLL when the client had none selected.
pub fn dll_scan_step(
    settings: &mut AlembicSettings,
    client: usize,
    dll: InjectConfig,
    accepted: bool,
    added: usize,
) -> (r: ScanOutcome)
    requires
        client < old(settings).clients@.len(),
    ensures
        old(settings).selections_valid() ==> final(settings).selections_valid(),
        dll_configured_at(*old(settings), client, dll.dll_path@) ==> r == ScanOutcome::AlreadyConfigured
            && *final(settings) == *old(settings),
        !dll_configured_at(*old(settings), client, dll.dll_path@) && !accepted ==> r
            == ScanOutcome::Declined && *final(settings) == *old(settings),
        !dll_configured_at(*old(settings), client, dll.dll_path@) && accepted ==> r == ScanOutcome::Added
            && crate::widgets::dlls::client_dlls_set(
            *final(settings),
            *old(settings),
            client as int,
            old(settings).clients@[client as int].dlls_of().push(dll),
            if old(settings).clients@[client as int].selected_dll_of() is None && added == 0 {
                Some(0usize)
            } else {
                old(settings).clients@[client as int].selected_dll_of()
            },
        ),
{
    if dll_configured(settings, client, &dll.dll_path) {
        return ScanOutcome::AlreadyConfigured;
    }
    if !accepted {
        return ScanOutcome::Declined;
    }
    accept_scanned_dll(settings, client, dll, added == 0);
    ScanOutcome::Added
}

// ---------------------------------------------------------------------------
// Discovered clients
// ---------------------------------------------------------------------------

/// Each client's DLL selection indexes its DLLs.
pub open spec fn clients_dll_selections_valid(clients: Seq<ClientConfigType>) -> bool {
    forall|i: int|
        0 <= i < clients.len() ==> selection_valid(
            #[trigger] clients[i].selected_dll_of(),
            clients[i].dlls_of().len(),
        )
}

/// Some client in `clients` is installed at `path`.
pub open spec fn has_install_path(clients: Seq<ClientConfigType>, path: Seq<char>) -> bool {
    exists|i: int| 0 <= i < clients.len() && #[trigger] clients[i].client_path_of() == path
}

/// Whether a client installed at `path` is already configured.
pub fn client_exists(settings: &AlembicSettings, path: &String) -> (r: bool)
    ensures
        r == has_install_path(settings.clients@, path@),
{
    let mut i: usize = 0;
    while i < settings.clients.len()
        invariant
            i <= settings.clients@.len(),
            forall|j: int| 0 <= j < i ==> #[trigger] settings.clients@[j].client_path_of() != path@,
        decreases settings.clients@.len() - i,
    {
        if *settings.clients[i].install_path() == *path {
            return true;
        }
        i = i + 1;
    }
    false
}

/// Adds a client found by a scan, selecting it if `select`, and marks the
/// settings as configured.
pub fn add_scanned_client(settings: &mut AlembicSettings, config: ClientConfigType, select: bool)
    ensures
        final(settings).clients@ == old(settings).clients@.push(config),
        final(settings).selected_client == if select {
            Some(old(settings).clients@.len() as usize)
        } else {
            old(settings).selected_client
        },
        final(settings).is_configured,
        same_but_clients(*final(settings), *old(settings)),
{
    settings.add_client(config, select);
    settings.is_configured = true;
}

/// One client of `client scan`: a client at an install path already
/// configured is skipped; else, when the user accepted it (`accepted`), it is
/// added and the settings marked configured, the first client added by the
/// scan (`added` counts those before) being selected when there were no
/// clients before the scan (`had_no_clients`).
pub fn client_scan_step(
    settings: &mut AlembicSettings,
    found: ClientConfigType,
    accepted: bool,
    had_no_clients: bool,
    added: usize,
) -> (r: ScanOutcome)
    ensures
        old(settings).selections_valid() && selection_valid(found.selected_dll_of(), found.dlls_of().len())
            ==> final(settings).selections_valid(),
        has_install_path(old(settings).clients@, found.client_path_of()) ==> r
            == ScanOutcome::AlreadyConfigured && *final(settings) == *old(settings),
        !has_install_path(old(settings).clients@, found.client_path_of()) && !accepted ==> r
            == ScanOutcome::Declined && *final(settings) == *old(settings),
        !has_install_path(old(settings).clients@, found.client_path_of()) && accepted ==> {
            &&& r == ScanOutcome::Added
            &&& final(settings).clients@ == old(settings).clients@.push(found)
            &&& final(settings).selected_client == if had_no_clients && added == 0 {
                Some(old(settings).clients@.len() as usize)
            } else {
                old(settings).selected_client
            }
            &&& final(settings).is_configured
            &&& same_but_clients(*final(settings), *old(settings))
        },
{
    if client_exists(settings, found.install_path()) {
        return ScanOutcome::AlreadyConfigured;
    }
    if !accepted {
        return ScanOutcome::Declined;
    }
    let ghost f = found;
    add_scanned_client(settings, found, had_no_clients && added == 0);
    proof {
        if old(settings).selections_valid() && selection_valid(f.selected_dll_of(), f.dlls_of().len()) {
            assert forall|i: int| 0 <= i < settings.clients@.len() implies selection_valid(
                #[trigger] settings.clients@[i].selected_dll_of(),
                settings.clients@[i].dlls_of().len(),
            ) by {
                if i < old(settings).clients@.len() {
                    assert(settings.clients@[i] == old(settings).clients@[i]);
                }
            }
        }
    }
    ScanOutcome::Added
}

/// `existing` after adding, in order, each client of `discovered` whose
/// install path is not yet among the clients.
pub open spec fn merged_clients(existing: Seq<ClientConfigType>, discovered: Seq<ClientConfigType>) -> Seq<
    ClientConfigType,
>
    decreases discovered.len(),
{
    if discovered.len() == 0 {
        existing
    } else {
        let m = merged_clients(existing, discovered.drop_last());
        if has_install_path(m, discovered.last().client_path_of()) {
            m
        } else {
            m.push(discovered.last())
        }
    }
}

/// Merging only appends to the existing clients.
pub proof fn lemma_merged_extends(existing: Seq<ClientConfigType>, discovered: Seq<ClientConfigType>)
    ensures
        merged_clients(existing, discovered).len() >= existing.len(),
        merged_clients(existing, discovered).take(existing.len() as int) == existing,
    decreases discovered.len(),
{
    if discovered.len() > 0 {
        lemma_merged_extends(existing, discovered.drop_last());
        let m = merged_clients(existing, discovered.drop_last());
        assert(m.push(discovered.last()).take(existing.len() as int) =~= m.take(existing.len() as int));
    } else {
        assert(existing.take(existing.len() as int) =~= existing);
    }
}

/// Adds each discovered client whose install path is not yet configured (the
/// scan buttons of the settings pages). When there were no clients, the first
/// one added is selected. Returns how many were added.
pub fn merge_discovered_clients(settings: &mut AlembicSettings, discovered: Vec<ClientConfigType>) -> (added: usize)
    ensures
        old(settings).selections_valid() && clients_dll_selections_valid(discovered@) ==> final(
            settings).selections_valid(),
        final(settings).clients@ == merged_clients(old(settings).clients@, discovered@),
        added == final(settings).clients@.len() - old(settings).clients@.len(),
        final(settings).selected_client == if old(settings).clients@.len() == 0 && added > 0 {
            Some(0usize)
        } else {
            old(settings).selected_client
        },
        final(settings).is_configured == (old(settings).is_configured || added > 0),
        same_but_clients(*final(settings), *old(settings)),
{
    let n0 = settings.clients.len();
    let had_no_clients = n0 == 0;
    let mut added: usize = 0;
    let ghost start = *settings;
    let ghost ds = discovered@;
    for config in it: discovered
        invariant
            it.seq() == ds,
            settings.clients@ == merged_clients(start.clients@, ds.take(it.index() as int)),
            settings.clients@.len() == start.clients@.len() + added,
            had_no_clients == (start.clients@.len() == 0),
            n0 == start.clients@.len(),
            settings.selected_client == if had_no_clients && added > 0 {
                Some(0usize)
            } else {
                start.selected_client
            },
            settings.is_configured == (start.is_configured || added > 0),
            same_but_clients(*settings, start),
            start.selections_valid() && clients_dll_selections_valid(ds) ==> settings.selections_valid(),
    {
        proof {
            assert(ds.take(it.index() + 1).drop_last() =~= ds.take(it.index() as int));
            assert(ds.take(it.index() + 1).last() == config);
        }
        if !client_exists(settings, config.install_path()) {
            let select = had_no_clients && added == 0;
            add_scanned_client(settings, config, select);
            added = settings.clients.len() - n0;
        }
    }
    proof {
        assert(ds.take(ds.len() as int) =~= ds);
    }
    added
}

// ---------------------------------------------------------------------------
// Launching
// ---------------------------------------------------------------------------

/// What a launch uses, by index into the settings.
#[derive(Debug, PartialEq, Eq, Structural)]
pub struct LaunchSelection {
    pub client: usize,
    pub server: usize,
    pub account: usize,
    pub dll: Option<usize>,
}

/// `i` is the first server named `name`.
pub open spec fn first_server_named(servers: Seq<ServerInfo>, name: Seq<char>, i: usize) -> bool {
    &&& i < servers.len()
    &&& servers[i as int].name@ == name
    &&& forall|j: int| 0 <= j < i ==> #[trigger] servers[j].name@ != name
}

/// `i` is the first account with user name `username`.
pub open spec fn first_account_named(accounts: Seq<Account>, username: Seq<char>, i: usize) -> bool {
    &&& i < accounts.len()
    &&& accounts[i as int].username@ == username
    &&& forall|j: int| 0 <= j < i ==> #[trigger] accounts[j].username@ != username
}

/// The first server named `name`.
fn find_server(servers: &Vec<ServerInfo>, name: &String) -> (r: Option<usize>)
    ensures
        match r {
            Some(i) => first_server_named(servers@, name@, i),
            None => forall|j: int| 0 <= j < servers@.len() ==> #[trigger] servers@[j].name@ != name@,
        },
{
    let mut i: usize = 0;
    while i < servers.len()
        invariant
            i <= servers@.len(),
            forall|j: int| 0 <= j < i ==> #[trigger] servers@[j].name@ != name@,
        decreases servers@.len() - i,
    {
        if servers[i].name == *name {
            return Some(i);
        }
        i = i + 1;
    }
    None
}

/// The first account with user name `username`.
fn find_account(accounts: &Vec<Account>, username: &String) -> (r: Option<usize>)
    ensures
        match r {
            Some(i) => first_account_named(accounts@, username@, i),
            None => forall|j: int| 0 <= j < accounts@.len() ==> #[trigger] accounts@[j].username@ != username@,
        },
{
    let mut i: usize = 0;
    while i < accounts.len()
        invariant
            i <= accounts@.len(),
            forall|j: int| 0 <= j < i ==> #[trigger] accounts@[j].username@ != username@,
        decreases accounts@.len() - i,
    {
        if accounts[i].username == *username {
            return Some(i);
        }
        i = i + 1;
    }
    None
}

/// Picks what to launch from the saved settings: the selected client, the
/// server named `server_name` (else the selected one), the account named
/// `account_name` (else the selected one) and the client's selected DLL, if any.
pub fn resolve_launch(
    settings: &AlembicSettings,
    server_name: Option<String>,
    account_name: Option<String>,
) -> (r: Result<LaunchSelection, CommandError>)
    ensures
        settings.selected_client_index() is None ==> r == Err::<LaunchSelection, CommandError>(
            CommandError::NoClientSelected),
        settings.selected_client_index() is Some ==> match server_name {
            Some(n) => (forall|j: int| 0 <= j < settings.servers@.len() ==> #[trigger] settings.servers@[j].name@ != n@)
                ==> (r matches Err(CommandError::ServerNotFound(m)) && m@ == n@),
            None => settings.selected_server_index() is None ==> r == Err::<LaunchSelection, CommandError>(
                CommandError::NoServerSelected),
        },
        r matches Err(e) ==> (match e {
            CommandError::NoClientSelected => settings.selected_client_index() is None,
            CommandError::ServerNotFound(m) => server_name == Some(m) && forall|j: int| 0 <= j < settings.servers@.len() ==> #[trigger] settings.servers@[j].name@ != m@,
            CommandError::NoServerSelected => server_name is None && settings.selected_server_index() is None,
            CommandError::AccountNotFound(m) => account_name == Some(m) && forall|j: int| 0 <= j < settings.accounts@.len() ==> #[trigger] settings.accounts@[j].username@ != m@,
            CommandError::NoAccountSelected => account_name is None && settings.selected_account_index() is None,
            _ => false,
        }),
        r matches Ok(sel) ==> {
            &&& Some(sel.client) == settings.selected_client_index()
            &&& match server_name {
                Some(n) => first_server_named(settings.servers@, n@, sel.server),
                None => Some(sel.server) == settings.selected_server_index(),
            }
            &&& match account_name {
                Some(n) => first_account_named(settings.accounts@, n@, sel.account),
                None => Some(sel.account) == settings.selected_account_index(),
            }
            &&& sel.dll == settings.client_selected_dll_index(sel.client)
        },
        (settings.selected_client_index() is Some
            && (match server_name {
                Some(n) => exists|j: int| 0 <= j < settings.servers@.len() && #[trigger] settings.servers@[j].name@ == n@,
                None => settings.selected_server_index() is Some,
            })
            && (match account_name {
                Some(n) => exists|j: int| 0 <= j < settings.accounts@.len() && #[trigger] settings.accounts@[j].username@ == n@,
                None => settings.selected_account_index() is Some,
            })) ==> r is Ok,
{
    let client = match settings.get_selected_client() {
        Some(c) => c,
        None => {
            return Err(CommandError::NoClientSelected);
        },
    };
    let server = match server_name {
        Some(n) => match find_server(&settings.servers, &n) {
            Some(i) => i,
            None => {
                return Err(CommandError::ServerNotFound(n));
            },
        },
        None => match settings.get_selected_server() {
            Some(i) => i,
            None => {
                return Err(CommandError::NoServerSelected);
            },
        },
    };
    let account = match account_name {
        Some(n) => match find_account(&settings.accounts, &n) {
            Some(i) => i,
            None => {
                return Err(CommandError::AccountNotFound(n));
            },
        },
        None => match settings.get_selected_account() {
            Some(i) => i,
            None => {
                return Err(CommandError::NoAccountSelected);
            },
        },
    };
    let dll = settings.get_client_selected_dll(client);
    Ok(LaunchSelection { client, server, account, dll })
}

/// Picks what to inject into: the selected client, which must run under
/// Wine, and its selected DLL. Returns their indices.
pub fn resolve_inject(settings: &AlembicSettings) -> (r: Result<(usize, usize), CommandError>)
    ensures
        r == (match settings.selected_client_index() {
            None => Err::<(usize, usize), CommandError>(CommandError::NoClientSelected),
            Some(c) => if settings.clients@[c as int] is Windows {
                Err(CommandError::NotWineClient)
            } else {
                match settings.client_selected_dll_index(c) {
                    Some(d) => Ok((c, d)),
                    None => Err(CommandError::NoDllSelected),
                }
            },
        }),
{
    let client = match settings.get_selected_client() {
        Some(c) => c,
        None => {
            return Err(CommandError::NoClientSelected);
        },
    };
    if !settings.clients[client].is_wine() {
        return Err(CommandError::NotWineClient);
    }
    match settings.get_client_selected_dll(client) {
        Some(d) => Ok((client, d)),
        None => Err(CommandError::NoDllSelected),
    }
}

/// What a launch from the command line uses: the client that the arguments
/// describe, a server named after its host, and an account on server 0.
pub fn exec_launch(
    mode: &str,
    client_path: String,
    hostname: String,
    port: String,
    username: String,
    password: String,
    launcher_path: String,
    wine_prefix: Option<String>,
    env_vars: Vec<(String, String)>,
) -> (r: Result<(ClientConfigType, ServerInfo, Account), CommandError>)
    ensures
        ({
            let lowered = lowercase(mode@);
            &&& r is Err <==> config_args_error(mode@, lowered, wine_prefix) is Some
            &&& r matches Err(e) ==> (match e {
                CommandError::InvalidMode(m) => m@ == mode@ && lowered != "windows"@ && lowered
                    != "wine"@,
                CommandError::WinePrefixRequired => lowered == "wine"@ && wine_prefix is None,
                _ => false,
            })
            &&& r matches Ok((c, s, a)) ==> {
                &&& config_from_args(
                    c,
                    lowered,
                    client_path,
                    launcher_path,
                    wine_prefix,
                    env_vars@,
                    "CLI-specified Windows client"@,
                    "CLI-specified Wine client"@,
                )
                &&& s.name == hostname
                &&& s.hostname == hostname
                &&& s.port == port
                &&& a.server_index == 0
                &&& a.username == username
                &&& a.password == password
            }
        }),
{
    let config = client_config_from_args(
        mode,
        client_path,
        launcher_path,
        wine_prefix,
        env_vars,
        "CLI-specified Windows client",
        "CLI-specified Wine client",
    )?;
    let server = ServerInfo { name: hostname.clone(), hostname, port };
    let account = Account { server_index: 0, username, password };
    Ok((config, server, account))
}

/// A program to run, with its arguments and environment.
pub struct CommandLine {
    pub program: String,
    pub args: Vec<String>,
    pub env: Vec<(String, String)>,
}

/// How `inject` runs `cork` for Wine client `client` and its DLL `dll`: the
/// client's launch program, with the launch arguments followed by the cork
/// path, `--dll` and the DLL's path, in the launch environment.
pub fn inject_command(settings: &AlembicSettings, client: usize, dll: usize, cork_path: &str) -> (r: CommandLine)
    requires
        client < settings.clients@.len(),
        settings.clients@[client as int] is Wine,
        dll < settings.clients@[client as int].dlls_of().len(),
    ensures
        ({
            let lc = settings.clients@[client as int].launch_command_of().unwrap();
            let d = settings.clients@[client as int].dlls_of()[dll as int];
            &&& r.program@ == lc.program@
            &&& r.args@.len() == lc.args@.len() + 3
            &&& forall|i: int| 0 <= i < lc.args@.len() ==> #[trigger] r.args@[i]@ == lc.args@[i]@
            &&& r.args@[lc.args@.len() as int]@ == cork_path@
            &&& r.args@[lc.args@.len() + 1int]@ == "--dll"@
            &&& r.args@[lc.args@.len() + 2int]@ == d.dll_path@
            &&& r.env@.len() == lc.env.pairs().len()
            &&& forall|i: int|
                0 <= i < r.env@.len() ==> (#[trigger] r.env@[i]).0@ == lc.env.pairs()[i].0@
                    && r.env@[i].1@ == lc.env.pairs()[i].1@
        }),
{
    let dll_path = settings.clients[client].dlls()[dll].dll_path.clone();
    match &settings.clients[client] {
        ClientConfigType::Wine(w) => {
            let lc = &w.launch_command;
            let mut args: Vec<String> = Vec::new();
            let mut i: usize = 0;
            while i < lc.args.len()
                invariant
                    i <= lc.args@.len(),
                    args@.len() == i,
                    forall|j: int| 0 <= j < i ==> #[trigger] args@[j]@ == lc.args@[j]@,
                decreases lc.args@.len() - i,
            {
                args.push(lc.args[i].clone());
                i = i + 1;
            }
            args.push(string_of(cork_path));
            args.push(string_of("--dll"));
            args.push(dll_path);
            let mut env: Vec<(String, String)> = Vec::new();
            let mut k: usize = 0;
            let n = lc.env.len();
            while k < n
                invariant
                    n == lc.env.pairs().len(),
                    k <= n,
                    env@.len() == k,
                    forall|j: int|
                        0 <= j < k ==> (#[trigger] env@[j]).0@ == lc.env.pairs()[j].0@ && env@[j].1@
                            == lc.env.pairs()[j].1@,
                decreases n - k,
            {
                let (key, value) = lc.env.pair(k);
                env.push((key.clone(), value.clone()));
                k = k + 1;
            }
            CommandLine { program: lc.program.clone(), args, env }
        },
        ClientConfigType::Windows(_) => {
            proof {
                assert(false);
            }
            CommandLine { program: String::new(), args: Vec::new(), env: Vec::new() }
        },
    }
}

} // verus!
