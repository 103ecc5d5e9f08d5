//! Properties that relate several operations of the library, stated over the
//! same spec functions as their contracts.
use vstd::prelude::*;

use crate::commands::{
    account_matches, account_row_ok, lemma_matching_accounts, matching_accounts, AccountRow,
    accounts_after_server_remove, client_edited, default_startup, edited_startup, env_with_pairs,
    env_without, has_install_path, last_setting, lemma_env_with_pairs, lemma_env_without,
    lemma_merged_extends, merged_clients, names_key, opt_view, reindexed_account, sets_key,
};
use crate::widgets::community::{
    is_initial_schedule, polled, run_frames, sends, sent_at, FetchSchedule, NANOS_PER_SECOND,
};
use crate::scanner::bottle_on_line;
use crate::text::{contains, lemma_split_append, lemma_split_enclosed, split_on, starts_with, trim};
use crate::widgets::pickers::{truncated, utf8_len};
use crate::settings::{
    selection_after_add, selection_after_remove, selection_valid, Account, AlembicSettings, ClientConfigType, DllType,
    ServerInfo,
};

verus! {

/// Removing an item keeps a selection that pointed at another item pointing at
/// that same item.
pub proof fn law_remove_keeps_selected_item<T>(items: Seq<T>, sel: Option<usize>, removed: usize)
    requires
        removed < items.len(),
        selection_valid(sel, items.len()),
        sel != Some(removed),
    ensures
        selection_valid(selection_after_remove(sel, removed), (items.len() - 1) as nat),
        sel is Some ==> items.remove(removed as int)[selection_after_remove(sel, removed)->0 as int]
            == items[sel->0 as int],
        sel is None ==> selection_after_remove(sel, removed) is None,
{
}

/// Removing the selected item leaves nothing selected.
pub proof fn law_remove_selected_clears_selection(sel: Option<usize>, removed: usize)
    requires
        sel == Some(removed),
    ensures
        selection_after_remove(sel, removed) is None,
{
}

/// Adding an account (or server) and then removing it again gives back the
/// list and the selection it started from, when the selection was valid.
pub proof fn law_add_then_remove_restores<T>(items: Seq<T>, sel: Option<usize>, item: T)
    requires
        selection_valid(sel, items.len()),
        items.len() < usize::MAX,
    ensures
        items.push(item).remove(items.len() as int) == items,
        selection_after_remove(selection_after_add(sel, items.len()), items.len() as usize) == sel,
{
    assert(items.push(item).remove(items.len() as int) =~= items);
}

/// In the accounts that remain after a server is removed, the account that was
/// at `j` (if it was not on the removed server) comes at the position given by
/// the accounts that remain before it, re-indexed.
pub proof fn lemma_remaining_account_at(accounts: Seq<Account>, removed: usize, j: int)
    requires
        0 <= j < accounts.len(),
        accounts[j].server_index != removed,
    ensures
        accounts_after_server_remove(accounts.take(j), removed).len() < accounts_after_server_remove(
            accounts,
            removed,
        ).len(),
        accounts_after_server_remove(accounts, removed)[accounts_after_server_remove(
            accounts.take(j),
            removed,
        ).len() as int] == reindexed_account(accounts[j], removed),
    decreases accounts.len(),
{
    let rest = accounts.drop_last();
    if j == accounts.len() - 1 {
        assert(accounts.take(j) =~= rest);
    } else {
        assert(rest.take(j) =~= accounts.take(j));
        assert(rest[j] == accounts[j]);
        lemma_remaining_account_at(rest, removed, j);
    }
}

/// Removing a server keeps every remaining account on the server it was on:
/// the account that was at `j`, if its server was not the removed one, still
/// has its user name and password and names the same server in the new list.
pub proof fn law_server_remove_keeps_account_server(
    servers: Seq<ServerInfo>,
    accounts: Seq<Account>,
    removed: usize,
    j: int,
)
    requires
        removed < servers.len(),
        0 <= j < accounts.len(),
        accounts[j].server_index != removed,
        accounts[j].server_index < servers.len(),
    ensures
        ({
            let new_accounts = accounts_after_server_remove(accounts, removed);
            let new_servers = servers.remove(removed as int);
            let k = accounts_after_server_remove(accounts.take(j), removed).len() as int;
            &&& 0 <= k < new_accounts.len()
            &&& new_accounts[k].username == accounts[j].username
            &&& new_accounts[k].password == accounts[j].password
            &&& new_accounts[k].server_index < new_servers.len()
            &&& new_servers[new_accounts[k].server_index as int] == servers[accounts[j].server_index as int]
        }),
{
    lemma_remaining_account_at(accounts, removed, j);
}

/// After a server is removed, no account is on it any more, and every account
/// names a server of the new list when every account named one before.
pub proof fn law_server_remove_accounts_valid(servers: Seq<ServerInfo>, accounts: Seq<Account>, removed: usize)
    requires
        removed < servers.len(),
        forall|i: int| 0 <= i < accounts.len() ==> #[trigger] accounts[i].server_index < servers.len(),
    ensures
        forall|i: int|
            0 <= i < accounts_after_server_remove(accounts, removed).len() ==> #[trigger] accounts_after_server_remove(
                accounts,
                removed,
            )[i].server_index < servers.len() - 1,
    decreases accounts.len(),
{
    if accounts.len() > 0 {
        let rest = accounts.drop_last();
        assert forall|i: int| 0 <= i < rest.len() implies #[trigger] rest[i].server_index < servers.len() by {
            assert(rest[i] == accounts[i]);
        }
        law_server_remove_accounts_valid(servers, rest, removed);
        assert(accounts.last() == accounts[accounts.len() - 1]);
        let r = accounts_after_server_remove(rest, removed);
        let n = accounts_after_server_remove(accounts, removed);
        assert forall|i: int| 0 <= i < n.len() implies #[trigger] n[i].server_index < servers.len() - 1 by {
            if i < r.len() {
                assert(n[i] == r[i]);
            }
        }
    }
}

/// Adding a server and removing it again gives back the servers, the accounts
/// and the server selection, when every account named a server and the
/// selection was valid.
pub proof fn law_server_add_then_remove_restores(
    servers: Seq<ServerInfo>,
    accounts: Seq<Account>,
    sel: Option<usize>,
    server: ServerInfo,
)
    requires
        selection_valid(sel, servers.len()),
        servers.len() < usize::MAX,
        forall|i: int| 0 <= i < accounts.len() ==> #[trigger] accounts[i].server_index < servers.len(),
    ensures
        servers.push(server).remove(servers.len() as int) == servers,
        accounts_after_server_remove(accounts, servers.len() as usize) == accounts,
        selection_after_remove(selection_after_add(sel, servers.len()), servers.len() as usize) == sel,
    decreases accounts.len(),
{
    assert(servers.push(server).remove(servers.len() as int) =~= servers);
    if accounts.len() > 0 {
        let rest = accounts.drop_last();
        assert forall|i: int| 0 <= i < rest.len() implies #[trigger] rest[i].server_index < servers.len() by {
            assert(rest[i] == accounts[i]);
        }
        law_server_add_then_remove_restores(servers, rest, sel, server);
        assert(accounts.last() == accounts[accounts.len() - 1]);
        assert(reindexed_account(accounts.last(), servers.len() as usize) == accounts.last());
        assert(rest.push(accounts.last()) =~= accounts);
    }
}

/// No two clients share an install path.
pub open spec fn install_paths_unique(clients: Seq<ClientConfigType>) -> bool {
    forall|i: int, j: int|
        0 <= i < clients.len() && 0 <= j < clients.len() && i != j ==> #[trigger] clients[i].client_path_of()
            != #[trigger] clients[j].client_path_of()
}

/// After a merge, every discovered install path is among the clients, and the
/// existing clients are still there.
pub proof fn lemma_merged_covers(existing: Seq<ClientConfigType>, discovered: Seq<ClientConfigType>)
    ensures
        forall|k: int|
            0 <= k < discovered.len() ==> has_install_path(
                merged_clients(existing, discovered),
                #[trigger] discovered[k].client_path_of(),
            ),
        forall|k: int|
            0 <= k < existing.len() ==> merged_clients(existing, discovered).len() > k
                && #[trigger] merged_clients(existing, discovered)[k] == existing[k],
    decreases discovered.len(),
{
    if discovered.len() > 0 {
        let d0 = discovered.drop_last();
        lemma_merged_covers(existing, d0);
        let m = merged_clients(existing, d0);
        let last = discovered.last();
        lemma_merged_extends(existing, discovered);
        assert forall|k: int| 0 <= k < existing.len() implies merged_clients(existing, discovered).len() > k
            && #[trigger] merged_clients(existing, discovered)[k] == existing[k] by {
            assert(merged_clients(existing, discovered).take(existing.len() as int)[k] == existing[k]);
        }
        assert forall|k: int| 0 <= k < discovered.len() implies has_install_path(
            merged_clients(existing, discovered),
            #[trigger] discovered[k].client_path_of(),
        ) by {
            if k < d0.len() {
                assert(d0[k] == discovered[k]);
                let w = choose|w: int| 0 <= w < m.len() && #[trigger] m[w].client_path_of() == d0[k].client_path_of();
                if !has_install_path(m, last.client_path_of()) {
                    assert(m.push(last)[w] == m[w]);
                }
            } else {
                if !has_install_path(m, last.client_path_of()) {
                    assert(m.push(last)[m.len() as int] == last);
                }
            }
        }
    }
}

/// Merging the same discovered clients a second time adds nothing.
pub proof fn law_merge_idempotent(existing: Seq<ClientConfigType>, discovered: Seq<ClientConfigType>)
    ensures
        merged_clients(merged_clients(existing, discovered), discovered) == merged_clients(
            existing,
            discovered,
        ),
{
    lemma_merged_covers(existing, discovered);
    lemma_merge_of_present(merged_clients(existing, discovered), discovered);
}

/// Merging clients whose install paths are all present changes nothing.
pub proof fn lemma_merge_of_present(existing: Seq<ClientConfigType>, discovered: Seq<ClientConfigType>)
    requires
        forall|k: int|
            0 <= k < discovered.len() ==> has_install_path(existing, #[trigger] discovered[k].client_path_of()),
    ensures
        merged_clients(existing, discovered) == existing,
    decreases discovered.len(),
{
    if discovered.len() > 0 {
        let d0 = discovered.drop_last();
        assert forall|k: int| 0 <= k < d0.len() implies has_install_path(existing, #[trigger] d0[k].client_path_of()) by {
            assert(d0[k] == discovered[k]);
        }
        lemma_merge_of_present(existing, d0);
        assert(discovered.last() == discovered[discovered.len() - 1]);
    }
}

/// Merging keeps install paths unique: when no two clients shared a path
/// before, none do after.
pub proof fn law_merge_keeps_paths_unique(existing: Seq<ClientConfigType>, discovered: Seq<ClientConfigType>)
    requires
        install_paths_unique(existing),
    ensures
        install_paths_unique(merged_clients(existing, discovered)),
    decreases discovered.len(),
{
    if discovered.len() > 0 {
        let d0 = discovered.drop_last();
        law_merge_keeps_paths_unique(existing, d0);
        let m = merged_clients(existing, d0);
        let last = discovered.last();
        if !has_install_path(m, last.client_path_of()) {
            let n = m.push(last);
            assert forall|i: int, j: int|
                0 <= i < n.len() && 0 <= j < n.len() && i != j implies #[trigger] n[i].client_path_of()
                != #[trigger] n[j].client_path_of() by {
                if i < m.len() && j < m.len() {
                    assert(n[i] == m[i] && n[j] == m[j]);
                } else if i < m.len() {
                    assert(n[i] == m[i]);
                    assert(n[j] == last);
                } else {
                    assert(n[j] == m[j]);
                    assert(n[i] == last);
                }
            }
        }
    }
}

/// A page never requests its data more often than its schedule allows.
pub proof fn law_poll_attempts_bounded(s: FetchSchedule, arrived: bool, now: u128)
    requires
        s.num_retry_attempts <= s.max_retry_attempts,
    ensures
        polled(s, arrived, now).0.num_retry_attempts <= s.max_retry_attempts,
        polled(s, arrived, now).0.max_retry_attempts == s.max_retry_attempts,
{
}

/// Once a page has seen its data arrive, it requests it no more.
pub proof fn law_poll_quiet_after_arrival(s: FetchSchedule, now: u128, later: u128, arrived: bool)
    ensures
        !polled(polled(s, true, now).0, arrived, later).1,
        polled(polled(s, true, now).0, arrived, later).0 == polled(s, true, now).0,
{
}

/// Two requests of a page are more than its retry interval apart.
pub proof fn law_poll_requests_spaced(s: FetchSchedule, a1: bool, t1: u128, a2: bool, t2: u128)
    requires
        polled(s, a1, t1).1,
        polled(polled(s, a1, t1).0, a2, t2).1,
    ensures
        t1 + s.retry_interval < t2,
{
}

/// The UTF-8 length of a concatenation is the sum of the lengths.
pub proof fn lemma_utf8_len_concat(a: Seq<char>, b: Seq<char>)
    ensures
        utf8_len(a + b) == utf8_len(a) + utf8_len(b),
    decreases b.len(),
{
    if b.len() == 0 {
        assert(a + b =~= a);
    } else {
        lemma_utf8_len_concat(a, b.drop_last());
        assert((a + b).drop_last() =~= a + b.drop_last());
    }
}

/// The label of a closed client picker is at most 20 bytes long.
pub proof fn law_client_label_fits(text: Seq<char>, label: Seq<char>)
    requires
        truncated(text, label),
    ensures
        utf8_len(label) <= 20,
{
    if utf8_len(text) > 20 {
        let k = choose|k: int| 0 <= k <= text.len() && #[trigger] utf8_len(text.take(k)) == 17 && label == text.take(k) + "..."@;
        lemma_utf8_len_concat(text.take(k), "..."@);
        assert(utf8_len("..."@) == 3) by {
            reveal_strlit("...");
            reveal_with_fuel(utf8_len, 4);
            assert("..."@ =~= seq!['.', '.', '.']);
            assert(seq!['.', '.', '.'].drop_last() =~= seq!['.', '.']);
            assert(seq!['.', '.'].drop_last() =~= seq!['.']);
            assert(seq!['.'].drop_last() =~= Seq::<char>::empty());
        }
    }
}

/// Running one more frame: the schedule after `frames.take(k + 1)` is one
/// poll of the schedule after `frames.take(k)`.
proof fn lemma_run_step(s: FetchSchedule, frames: Seq<(bool, u128)>, k: int)
    requires
        0 <= k < frames.len(),
    ensures
        run_frames(s, frames.take(k + 1)) == polled(run_frames(s, frames.take(k)), frames[k].0, frames[k].1).0,
        sends(s, frames.take(k + 1)) == sends(s, frames.take(k)) + if sent_at(s, frames, k) {
            1nat
        } else {
            0nat
        },
{
    assert(frames.take(k + 1).drop_last() =~= frames.take(k));
    assert(frames.take(k + 1).last() == frames[k]);
}

/// Over any frames, a page's attempts are counted by its requests, never pass
/// its maximum, and its maximum and interval stay.
pub proof fn law_poll_frames_bounded(s: FetchSchedule, frames: Seq<(bool, u128)>)
    requires
        s.num_retry_attempts <= s.max_retry_attempts,
    ensures
        run_frames(s, frames).num_retry_attempts == s.num_retry_attempts + sends(s, frames),
        run_frames(s, frames).num_retry_attempts <= s.max_retry_attempts,
        sends(s, frames) <= s.max_retry_attempts - s.num_retry_attempts,
        run_frames(s, frames).max_retry_attempts == s.max_retry_attempts,
        run_frames(s, frames).retry_interval == s.retry_interval,
    decreases frames.len(),
{
    if frames.len() > 0 {
        law_poll_frames_bounded(s, frames.drop_last());
    }
}

/// Once a page has seen its data arrive it keeps it seen, and no later frame
/// requests the data.
pub proof fn law_poll_frames_resolved(s: FetchSchedule, frames: Seq<(bool, u128)>, j: int, k: int)
    requires
        0 <= j <= k < frames.len(),
        run_frames(s, frames.take(j)).is_resolved,
    ensures
        run_frames(s, frames.take(k)).is_resolved,
        run_frames(s, frames.take(k + 1)).is_resolved,
        !sent_at(s, frames, k),
    decreases k - j,
{
    if k > j {
        law_poll_frames_resolved(s, frames, j, k - 1);
        lemma_run_step(s, frames, k - 1);
    }
    lemma_run_step(s, frames, k);
}

/// After a request at frame `k1`, the last request time is at least that
/// frame's time.
proof fn lemma_last_fetched_after(s: FetchSchedule, frames: Seq<(bool, u128)>, k1: int, j: int)
    requires
        0 <= k1 < j <= frames.len(),
        sent_at(s, frames, k1),
    ensures
        run_frames(s, frames.take(j)).last_fetched matches Some(x) && x >= frames[k1].1,
    decreases j - k1,
{
    if j == k1 + 1 {
        lemma_run_step(s, frames, k1);
    } else {
        lemma_last_fetched_after(s, frames, k1, j - 1);
        lemma_run_step(s, frames, j - 1);
    }
}

/// Interval and maximum stay over any frames, whatever the attempts.
proof fn lemma_interval_stays(s: FetchSchedule, frames: Seq<(bool, u128)>)
    ensures
        run_frames(s, frames).retry_interval == s.retry_interval,
    decreases frames.len(),
{
    if frames.len() > 0 {
        lemma_interval_stays(s, frames.drop_last());
    }
}

/// Any two requests of a page, over any frames, are more than its retry
/// interval apart.
pub proof fn law_poll_frames_spaced(s: FetchSchedule, frames: Seq<(bool, u128)>, k1: int, k2: int)
    requires
        0 <= k1 < k2 < frames.len(),
        sent_at(s, frames, k1),
        sent_at(s, frames, k2),
    ensures
        frames[k1].1 + s.retry_interval < frames[k2].1,
{
    lemma_last_fetched_after(s, frames, k1, k2);
    lemma_interval_stays(s, frames.take(k2));
}

/// The community server and news pages, from where they start, request their
/// data at most three times over any frames, each request more than a minute
/// after the one before.
pub proof fn law_poll_from_start(s: FetchSchedule, frames: Seq<(bool, u128)>, k1: int, k2: int)
    requires
        is_initial_schedule(s),
    ensures
        sends(s, frames) <= 3,
        run_frames(s, frames).num_retry_attempts <= 3,
        0 <= k1 < k2 < frames.len() && sent_at(s, frames, k1) && sent_at(s, frames, k2) ==> frames[k1].1
            + 60 * NANOS_PER_SECOND < frames[k2].1,
{
    law_poll_frames_bounded(s, frames);
    if 0 <= k1 < k2 < frames.len() && sent_at(s, frames, k1) && sent_at(s, frames, k2) {
        law_poll_frames_spaced(s, frames, k1, k2);
    }
}

/// Editing a Wine client's environment removes each unset name that no pair
/// sets again, gives each set name the value of the last pair that sets it,
/// and leaves every other name as it was.
pub proof fn law_client_edit_env(
    new: ClientConfigType,
    before: ClientConfigType,
    name: Option<String>,
    client_path: Option<String>,
    wrapper_program: Option<String>,
    args: Seq<String>,
    clear_args: bool,
    env_vars: Seq<(String, String)>,
    unset_env_vars: Seq<String>,
)
    requires
        client_edited(new, before, name, client_path, wrapper_program, args, clear_args, env_vars, unset_env_vars),
        before is Wine,
    ensures
        new is Wine,
        forall|i: int|
            0 <= i < unset_env_vars.len() && !sets_key(env_vars, unset_env_vars[i]@)
                ==> !new->Wine_0.launch_command.env.map().dom().contains(#[trigger] unset_env_vars[i]@),
        forall|j: int|
            #[trigger] last_setting(env_vars, j) ==> new->Wine_0.launch_command.env.map().dom().contains(
                env_vars[j].0@,
            ) && new->Wine_0.launch_command.env.map()[env_vars[j].0@] == env_vars[j].1@,
        forall|k: Seq<char>|
            !names_key(unset_env_vars, k) && !sets_key(env_vars, k) ==> (
            #[trigger] new->Wine_0.launch_command.env.map().dom().contains(k)
                <==> before->Wine_0.launch_command.env.map().dom().contains(k)),
        forall|k: Seq<char>|
            !names_key(unset_env_vars, k) && !sets_key(env_vars, k)
                && before->Wine_0.launch_command.env.map().dom().contains(k)
                ==> #[trigger] new->Wine_0.launch_command.env.map()[k] == before->Wine_0.launch_command.env.map()[k],
{
    let oe = before->Wine_0.launch_command.env.map();
    let ne = new->Wine_0.launch_command.env.map();
    let w = env_without(oe, unset_env_vars);
    lemma_env_without(oe, unset_env_vars);
    lemma_env_with_pairs(w, env_vars);
    assert(ne == env_with_pairs(w, env_vars));
    assert forall|i: int|
        0 <= i < unset_env_vars.len() && !sets_key(env_vars, unset_env_vars[i]@)
            implies !ne.dom().contains(#[trigger] unset_env_vars[i]@) by {
        assert(names_key(unset_env_vars, unset_env_vars[i]@));
        assert(!w.dom().contains(unset_env_vars[i]@));
    }
    assert forall|j: int| #[trigger] last_setting(env_vars, j) implies ne.dom().contains(env_vars[j].0@)
        && ne[env_vars[j].0@] == env_vars[j].1@ by {
        assert(sets_key(env_vars, env_vars[j].0@));
    }
    assert forall|k: Seq<char>| !names_key(unset_env_vars, k) && !sets_key(env_vars, k) implies (
        #[trigger] ne.dom().contains(k) <==> oe.dom().contains(k)) by {
        assert(w.dom().contains(k) <==> oe.dom().contains(k));
    }
    assert forall|k: Seq<char>| !names_key(unset_env_vars, k) && !sets_key(env_vars, k) && oe.dom().contains(k)
        implies #[trigger] ne[k] == oe[k] by {
        assert(w.dom().contains(k));
        assert(w[k] == oe[k]);
        assert(ne[k] == w[k]);
    }
}

/// A new DLL keeps the startup function it is given, whatever its type; only
/// when none is given does it get its type's default: `DecalStartup` for
/// Decal, none for Alembic.
pub proof fn law_dll_add_startup(given: Option<String>, t: DllType)
    ensures
        given matches Some(f) ==> default_startup(given, t) == Some(f@),
        given is None && t == DllType::Decal ==> default_startup(given, t) == Some("DecalStartup"@),
        given is None && t == DllType::Alembic ==> default_startup(given, t) is None,
{
}

/// Editing a DLL's startup function: a given name other than the empty one
/// and `none` becomes the startup function; the empty name and `none` remove
/// it; with none given it stays as it was.
pub proof fn law_dll_edit_startup(given: Option<String>, current: Option<String>)
    ensures
        given matches Some(f) ==> (f@ != Seq::<char>::empty() && f@ != "none"@ ==> edited_startup(
            given,
            current,
        ) == Some(f@)),
        given matches Some(f) ==> (f@ == Seq::<char>::empty() || f@ == "none"@ ==> edited_startup(
            given,
            current,
        ) is None),
        given is None ==> edited_startup(given, current) == opt_view(current),
{
}

/// An account listing marks a row exactly when it names the selected account:
/// at most one row is marked, and the selected account, when it passes the
/// filter, is listed and marked.
pub proof fn law_account_listing_marks_selected(
    settings: AlembicSettings,
    filter: Option<usize>,
    rows: Seq<AccountRow>,
)
    requires
        settings.accounts@.len() <= usize::MAX,
        rows.len() == matching_accounts(settings.accounts@, filter, settings.accounts@.len()).len(),
        forall|k: int|
            0 <= k < rows.len() ==> account_row_ok(
                settings,
                #[trigger] rows[k],
                matching_accounts(settings.accounts@, filter, settings.accounts@.len())[k],
            ),
    ensures
        forall|k: int|
            0 <= k < rows.len() ==> (#[trigger] rows[k]).selected == (settings.selected_account == Some(
                rows[k].index,
            )),
        forall|k1: int, k2: int|
            0 <= k1 < rows.len() && 0 <= k2 < rows.len() && (#[trigger] rows[k1]).selected && (
            #[trigger] rows[k2]).selected ==> k1 == k2,
        settings.selected_account is Some && settings.selected_account->0 < settings.accounts@.len()
            && account_matches(settings.accounts@[settings.selected_account->0 as int], filter)
            ==> exists|k: int| 0 <= k < rows.len() && rows[k].index == settings.selected_account->0 && rows[k].selected,
{
    let m = matching_accounts(settings.accounts@, filter, settings.accounts@.len());
    lemma_matching_accounts(settings.accounts@, filter, settings.accounts@.len());
    assert forall|k1: int, k2: int|
        0 <= k1 < rows.len() && 0 <= k2 < rows.len() && (#[trigger] rows[k1]).selected && (
        #[trigger] rows[k2]).selected implies k1 == k2 by {
        assert(account_row_ok(settings, rows[k1], m[k1]));
        assert(account_row_ok(settings, rows[k2], m[k2]));
        if k1 < k2 {
            assert(m[k1] < m[k2]);
        } else if k2 < k1 {
            assert(m[k2] < m[k1]);
        }
    }
    if settings.selected_account is Some && settings.selected_account->0 < settings.accounts@.len()
        && account_matches(settings.accounts@[settings.selected_account->0 as int], filter) {
        let s = settings.selected_account->0;
        let k = choose|k: int| 0 <= k < m.len() && m[k] == s as int;
        assert(account_row_ok(settings, rows[k], m[k]));
    }
}

/// A row of the bottle table gives the whole of its first column, trimmed:
/// a bottle name with spaces in it is read in full.
pub proof fn law_bottle_row_whole_column(name: Seq<char>, rest: Seq<char>)
    requires
        forall|i: int| 0 <= i < name.len() ==> name[i] != '|',
        trim(name).len() > 0,
        !contains(seq!['|'] + name + seq!['|'] + rest, "Name"@),
    ensures
        bottle_on_line(seq!['|'] + name + seq!['|'] + rest) == Some(trim(name)),
{
    reveal_strlit("|");
    reveal_strlit("+");
    let cell = seq!['|'] + name + seq!['|'];
    let line = cell + rest;
    lemma_split_enclosed(name, '|');
    lemma_split_append(cell, rest, '|');
    assert(split_on(line, '|')[1] == name);
    assert(line[0] == '|');
    assert(line.subrange(0, 1) =~= "|"@);
    assert(starts_with(line, "|"@));
    assert(!starts_with(line, "+"@)) by {
        if starts_with(line, "+"@) {
            assert(line.subrange(0, 1)[0] == "+"@[0]);
        }
    }
}

} // verus!
