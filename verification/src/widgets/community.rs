//! The pages fed by background fetches: when to ask for the news or the
//! community server list again, what to show for each state of a fetch, and
//! importing a community server into the settings.
use vstd::prelude::*;

use crate::backend::{CommunityServers, CommunityServersServerItem, FetchWrapper, News};
use crate::commands::same_but_servers_accounts;
use crate::settings::{AlembicSettings, ServerInfo};
use crate::text::{push_str, string_of};

verus! {

/// Nanoseconds in a second.
pub const NANOS_PER_SECOND: u128 = 1_000_000_000;

/// When a page asks the background fetcher for its data: at most
/// `max_retry_attempts` times, the first time at once and then whenever
/// `retry_interval` (nanoseconds) has passed since the last request, until
/// the data has arrived. Times are nanoseconds since the Unix epoch.
pub struct FetchSchedule {
    pub num_retry_attempts: usize,
    pub max_retry_attempts: usize,
    pub retry_interval: u128,
    pub last_fetched: Option<u128>,
    pub is_resolved: bool,
}

/// Whether a request is due at `now`: none was made yet, or the last one
/// was made more than `interval` before `now`.
pub open spec fn request_due(last: Option<u128>, interval: u128, now: u128) -> bool {
    match last {
        None => true,
        Some(t) => t + interval < now,
    }
}

/// The schedule after a frame at `now` in which the data was (`arrived`) or
/// was not in, and whether that frame requests the data.
pub open spec fn polled(s: FetchSchedule, arrived: bool, now: u128) -> (FetchSchedule, bool) {
    if s.is_resolved {
        (s, false)
    } else if s.max_retry_attempts > s.num_retry_attempts && request_due(s.last_fetched, s.retry_interval, now) {
        (
            FetchSchedule {
                num_retry_attempts: (s.num_retry_attempts + 1) as usize,
                last_fetched: Some(now),
                is_resolved: arrived,
                ..s
            },
            true,
        )
    } else {
        (FetchSchedule { is_resolved: arrived, ..s }, false)
    }
}

/// The schedule after the frames `frames` (each: whether the data was in,
/// and the time), from `s`.
pub open spec fn run_frames(s: FetchSchedule, frames: Seq<(bool, u128)>) -> FetchSchedule
    decreases frames.len(),
{
    if frames.len() == 0 {
        s
    } else {
        polled(run_frames(s, frames.drop_last()), frames.last().0, frames.last().1).0
    }
}

/// Whether frame `k` of `frames`, run from `s`, requests the data.
pub open spec fn sent_at(s: FetchSchedule, frames: Seq<(bool, u128)>, k: int) -> bool {
    polled(run_frames(s, frames.take(k)), frames[k].0, frames[k].1).1
}

/// How many of the frames `frames`, run from `s`, request the data.
pub open spec fn sends(s: FetchSchedule, frames: Seq<(bool, u128)>) -> nat
    decreases frames.len(),
{
    if frames.len() == 0 {
        0
    } else {
        sends(s, frames.drop_last()) + if polled(
            run_frames(s, frames.drop_last()),
            frames.last().0,
            frames.last().1,
        ).1 {
            1nat
        } else {
            0nat
        }
    }
}

/// `s` is the schedule a page starts with: no attempt yet, three allowed a
/// minute apart, nothing fetched, nothing arrived.
pub open spec fn is_initial_schedule(s: FetchSchedule) -> bool {
    &&& s.num_retry_attempts == 0
    &&& s.max_retry_attempts == 3
    &&& s.retry_interval == 60 * NANOS_PER_SECOND
    &&& s.last_fetched is None
    &&& !s.is_resolved
}

impl FetchSchedule {
    /// Three attempts, a minute apart.
    pub fn default() -> (r: FetchSchedule)
        ensures
            is_initial_schedule(r),
            r.num_retry_attempts == 0,
            r.max_retry_attempts == 3,
            r.retry_interval == 60 * NANOS_PER_SECOND,
            r.last_fetched is None,
            !r.is_resolved,
    {
        FetchSchedule {
            num_retry_attempts: 0,
            max_retry_attempts: 3,
            retry_interval: 60 * NANOS_PER_SECOND,
            last_fetched: None,
            is_resolved: false,
        }
    }

    /// One frame of the page at `now`, with `arrived` telling whether the
    /// data is in. Until the data was seen to be in, a request is made (and
    /// counted) when attempts are left and one is due. Tells whether to
    /// send the request.
    pub fn poll(&mut self, arrived: bool, now: u128) -> (request: bool)
        ensures
            (*final(self), request) == polled(*old(self), arrived, now),
            request == (!old(self).is_resolved && old(self).max_retry_attempts > old(
                self,
            ).num_retry_attempts && request_due(
                old(self).last_fetched,
                old(self).retry_interval,
                now,
            )),
            final(self).is_resolved == (old(self).is_resolved || arrived),
            final(self).max_retry_attempts == old(self).max_retry_attempts,
            final(self).retry_interval == old(self).retry_interval,
            final(self).num_retry_attempts == old(self).num_retry_attempts + if request {
                1int
            } else {
                0int
            },
            final(self).last_fetched == if request {
                Some(now)
            } else {
                old(self).last_fetched
            },
    {
        if self.is_resolved {
            return false;
        }
        if arrived {
            self.is_resolved = true;
        }
        let not_exhausted = self.max_retry_attempts > self.num_retry_attempts;
        let due = match self.last_fetched {
            None => true,
            Some(t) => now > t && now - t > self.retry_interval,
        };
        if not_exhausted && due {
            self.last_fetched = Some(now);
            self.num_retry_attempts = self.num_retry_attempts + 1;
            true
        } else {
            false
        }
    }
}

/// The community server list: fetched in the background, each server
/// importable into the settings.
pub struct AccountsCommunityServersTab {
    pub fetch: FetchSchedule,
}

impl AccountsCommunityServersTab {
    /// Nothing fetched yet; three attempts a minute apart.
    pub fn default() -> (r: AccountsCommunityServersTab)
        ensures
            r.fetch.num_retry_attempts == 0,
            r.fetch.max_retry_attempts == 3,
            r.fetch.retry_interval == 60 * NANOS_PER_SECOND,
            r.fetch.last_fetched is None,
            !r.fetch.is_resolved,
    {
        AccountsCommunityServersTab { fetch: FetchSchedule::default() }
    }

    /// The text shown instead of the server table, if any: the state of the
    /// fetch, a note that the list is empty, or the fetch's error.
    pub fn status_text(state: &FetchWrapper<CommunityServers>) -> (r: Option<String>)
        ensures
            match *state {
                FetchWrapper::NotStarted => r matches Some(t) && t@ == "Not yet fetched..."@,
                FetchWrapper::Started => r matches Some(t) && t@ == "Fetching..."@,
                FetchWrapper::Retrying(_) => r matches Some(t) && t@ == "Retrying..."@,
                FetchWrapper::Success(s) => if s.servers@.len() == 0 {
                    r matches Some(t) && t@ == "No servers to show"@
                } else {
                    r is None
                },
                FetchWrapper::Failed(e) => r matches Some(t) && t@
                    == "Error fetching community servers list: "@ + e@,
            },
    {
        match state {
            FetchWrapper::NotStarted => Some(string_of("Not yet fetched...")),
            FetchWrapper::Started => Some(string_of("Fetching...")),
            FetchWrapper::Retrying(_) => Some(string_of("Retrying...")),
            FetchWrapper::Success(s) => if s.servers.len() == 0 {
                Some(string_of("No servers to show"))
            } else {
                None
            },
            FetchWrapper::Failed(e) => {
                let mut t = string_of("Error fetching community servers list: ");
                push_str(&mut t, e.as_str());
                Some(t)
            },
        }
    }

    /// The text of a server's website or Discord link: the link, or `None`.
    pub fn link_text(link: &Option<String>) -> (r: String)
        ensures
            r@ == match *link {
                Some(l) => l@,
                None => "None"@,
            },
    {
        match link {
            Some(l) => l.clone(),
            None => string_of("None"),
        }
    }
}

/// `i` is the first server in `servers` named `name`.
pub open spec fn first_named(servers: Seq<ServerInfo>, name: Seq<char>, i: int) -> bool {
    &&& 0 <= i < servers.len()
    &&& servers[i].name@ == name
    &&& forall|j: int| 0 <= j < i ==> #[trigger] servers[j].name@ != name
}

/// No two servers share a name.
pub open spec fn server_names_unique(servers: Seq<ServerInfo>) -> bool {
    forall|i: int, j: int|
        0 <= i < servers.len() && 0 <= j < servers.len() && i != j ==> #[trigger] servers[i].name@
            != #[trigger] servers[j].name@
}

/// The server of the settings that a community server imports as.
pub open spec fn imported_server(s: ServerInfo, item: CommunityServersServerItem) -> bool {
    &&& s.name@ == item.name@
    &&& s.hostname@ == item.server_host@
    &&& s.port@ == item.server_port@
}

/// "Import": the community server replaces the first server of the same name
/// or, when there is none, is added at the end. The selections are kept.
pub fn import_community_server(settings: &mut AlembicSettings, item: &CommunityServersServerItem)
    ensures
        server_names_unique(old(settings).servers@) ==> server_names_unique(final(settings).servers@),
        old(settings).selections_valid() ==> final(settings).selections_valid(),
        old(settings).accounts_valid() ==> final(settings).accounts_valid(),
        forall|i: int| first_named(old(settings).servers@, item.name@, i)
            ==> final(settings).servers@.len() == old(settings).servers@.len() && imported_server(
            final(settings).servers@[i],
            *item,
        ) && forall|j: int|
            0 <= j < old(settings).servers@.len() && j != i ==> #[trigger] final(settings).servers@[j]
                == old(settings).servers@[j],
        (forall|j: int| 0 <= j < old(settings).servers@.len() ==> #[trigger] old(settings).servers@[j].name@ != item.name@)
            ==> final(settings).servers@.drop_last() == old(settings).servers@
            && final(settings).servers@.len() == old(settings).servers@.len() + 1 && imported_server(
            final(settings).servers@.last(),
            *item,
        ),
        final(settings).selected_server == old(settings).selected_server,
        final(settings).accounts == old(settings).accounts,
        final(settings).selected_account == old(settings).selected_account,
        same_but_servers_accounts(*final(settings), *old(settings)),
{
    let to_import = ServerInfo {
        name: item.name.clone(),
        hostname: item.server_host.clone(),
        port: item.server_port.clone(),
    };
    let mut i: usize = 0;
    while i < settings.servers.len()
        invariant
            i <= settings.servers@.len(),
            *settings == *old(settings),
            imported_server(to_import, *item),
            forall|j: int| 0 <= j < i ==> #[trigger] settings.servers@[j].name@ != item.name@,
        decreases settings.servers@.len() - i,
    {
        if settings.servers[i].name == item.name {
            proof {
                assert forall|k: int| first_named(old(settings).servers@, item.name@, k) implies k
                    == i by {
                    if k < i {
                        assert(old(settings).servers@[k].name@ != item.name@);
                    }
                }
            }
            settings.servers.set(i, to_import);
            proof {
                let ns = settings.servers@;
                let os = old(settings).servers@;
                if server_names_unique(os) {
                    assert forall|a: int, b: int|
                        0 <= a < ns.len() && 0 <= b < ns.len() && a != b implies #[trigger] ns[a].name@
                        != #[trigger] ns[b].name@ by {
                        assert(os[a].name@ != os[b].name@);
                        assert(ns[i as int].name@ == os[i as int].name@);
                        if a != i && b != i {
                            assert(ns[a] == os[a] && ns[b] == os[b]);
                        } else if a == i {
                            assert(ns[b] == os[b]);
                        } else {
                            assert(ns[a] == os[a]);
                        }
                    }
                }
            }
            return;
        }
        i = i + 1;
    }
    settings.servers.push(to_import);
    assert(settings.servers@.drop_last() =~= old(settings).servers@);
    proof {
        let ns = settings.servers@;
        let os = old(settings).servers@;
        if server_names_unique(os) {
            assert forall|a: int, b: int|
                0 <= a < ns.len() && 0 <= b < ns.len() && a != b implies #[trigger] ns[a].name@
                != #[trigger] ns[b].name@ by {
                if a < os.len() && b < os.len() {
                    assert(ns[a] == os[a] && ns[b] == os[b]);
                    assert(os[a].name@ != os[b].name@);
                } else if a < os.len() {
                    assert(ns[a] == os[a]);
                    assert(os[a].name@ != item.name@);
                } else {
                    assert(ns[b] == os[b]);
                    assert(os[b].name@ != item.name@);
                }
            }
        }
    }
}

/// The text shown instead of the news, if any: the state of the fetch, a
/// note that there is no news, or the fetch's error.
pub fn news_status_text(state: &FetchWrapper<News>) -> (r: Option<String>)
    ensures
        match *state {
            FetchWrapper::NotStarted => r matches Some(t) && t@ == "Not yet fetched."@,
            FetchWrapper::Started => r matches Some(t) && t@ == "Fetching..."@,
            FetchWrapper::Retrying(_) => r matches Some(t) && t@ == "Retrying..."@,
            FetchWrapper::Success(n) => if n.entries@.len() == 0 {
                r matches Some(t) && t@ == "No news to show"@
            } else {
                r is None
            },
            FetchWrapper::Failed(e) => r matches Some(t) && t@ == "Error fetching news: "@ + e@,
        },
{
    match state {
        FetchWrapper::NotStarted => Some(string_of("Not yet fetched.")),
        FetchWrapper::Started => Some(string_of("Fetching...")),
        FetchWrapper::Retrying(_) => Some(string_of("Retrying...")),
        FetchWrapper::Success(n) => if n.entries.len() == 0 {
            Some(string_of("No news to show"))
        } else {
            None
        },
        FetchWrapper::Failed(e) => {
            let mut t = string_of("Error fetching news: ");
            push_str(&mut t, e.as_str());
            Some(t)
        },
    }
}

} // verus!
