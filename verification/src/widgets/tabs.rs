//! The tabs of the main page: accounts and servers, the game's chat, and the
//! developer views of the client's logs and packets.
use vstd::prelude::*;

use crate::backend::{byte_list, Backend, ChatMessage, PacketInfo};
use crate::ring::{
    chat_items, chat_ring_get, chat_ring_len, log_items, log_ring_get, log_ring_len, packet_items,
    packet_ring_get, packet_ring_len,
};
use crate::format::{decimal, u64_decimal, usize_decimal};
use crate::settings::{Account, AlembicSettings, ServerInfo};
use crate::text::{push_str, string_of};
use crate::widgets::community::AccountsCommunityServersTab;

verus! {

/// The account list of the accounts tab.
pub struct AccountsMainTab {
    pub selected_server: Option<usize>,
}

impl AccountsMainTab {
    /// The text of the server picker: whether a server is picked.
    pub fn picker_text(&self) -> (r: &'static str)
        ensures
            r@ == if self.selected_server is Some {
                "something"@
            } else {
                "nothing"@
            },
    {
        match self.selected_server {
            Some(_) => "something",
            None => "nothing",
        }
    }

    /// "Testing add": appends a test account on the picked server (server 0
    /// when none is picked).
    pub fn add_test_account(&self, settings: &mut AlembicSettings)
        ensures
            old(settings).selections_valid() ==> final(settings).selections_valid(),
            final(settings).accounts@.drop_last() == old(settings).accounts@,
            final(settings).accounts@.len() == old(settings).accounts@.len() + 1,
            final(settings).accounts@.last().server_index == match self.selected_server {
                Some(s) => s,
                None => 0,
            },
            final(settings).accounts@.last().username@ == "Test"@,
            final(settings).accounts@.last().password@ == "Test"@,
            final(settings).servers == old(settings).servers,
            final(settings).selected_server == old(settings).selected_server,
            final(settings).selected_account == old(settings).selected_account,
            final(settings).clients == old(settings).clients,
            final(settings).selected_client == old(settings).selected_client,
            final(settings).is_configured == old(settings).is_configured,
    {
        let server_index = match self.selected_server {
            Some(s) => s,
            None => 0,
        };
        settings.accounts.push(
            Account { server_index, username: string_of("Test"), password: string_of("Test") },
        );
        assert(settings.accounts@.drop_last() =~= old(settings).accounts@);
    }

    /// The count line: `n accounts: N`.
    pub fn count_text(settings: &AlembicSettings) -> (r: String)
        ensures
            r@ == "n accounts: "@ + decimal(settings.accounts@.len()),
    {
        let mut r = string_of("n accounts: ");
        let n = usize_decimal(settings.accounts.len());
        push_str(&mut r, n.as_str());
        r
    }
}

/// The server list of the accounts tab.
pub struct AccountsServersTab {}

impl AccountsServersTab {
    /// "Teting add": appends a test server, `test:9000`, with an empty name.
    pub fn add_test_server(settings: &mut AlembicSettings)
        ensures
            old(settings).selections_valid() ==> final(settings).selections_valid(),
            old(settings).accounts_valid() ==> final(settings).accounts_valid(),
            final(settings).servers@.drop_last() == old(settings).servers@,
            final(settings).servers@.len() == old(settings).servers@.len() + 1,
            final(settings).servers@.last().name@ == Seq::<char>::empty(),
            final(settings).servers@.last().hostname@ == "test"@,
            final(settings).servers@.last().port@ == "9000"@,
            final(settings).selected_server == old(settings).selected_server,
            final(settings).accounts == old(settings).accounts,
            final(settings).selected_account == old(settings).selected_account,
            final(settings).clients == old(settings).clients,
            final(settings).selected_client == old(settings).selected_client,
            final(settings).is_configured == old(settings).is_configured,
    {
        settings.servers.push(
            ServerInfo { name: String::new(), hostname: string_of("test"), port: string_of("9000") },
        );
        assert(settings.servers@.drop_last() =~= old(settings).servers@);
    }

    /// The count line: `n servers: N`.
    pub fn count_text(settings: &AlembicSettings) -> (r: String)
        ensures
            r@ == "n servers: "@ + decimal(settings.servers@.len()),
    {
        let mut r = string_of("n servers: ");
        let n = usize_decimal(settings.servers.len());
        push_str(&mut r, n.as_str());
        r
    }
}

/// A tab of the accounts tab.
pub enum AccountsTabContent {
    Main(AccountsMainTab),
    Servers(AccountsServersTab),
    CommunityServers(AccountsCommunityServersTab),
}

/// The accounts tab: accounts, servers and community servers.
pub struct AccountsTab {
    pub tabs: Vec<AccountsTabContent>,
    pub selected_tab: usize,
}

impl AccountsTab {
    /// The label of a tab.
    pub fn label(tab: &AccountsTabContent) -> (r: &'static str)
        ensures
            r@ == match *tab {
                AccountsTabContent::Main(_) => "Accounts"@,
                AccountsTabContent::Servers(_) => "Servers"@,
                AccountsTabContent::CommunityServers(_) => "Community Servers"@,
            },
    {
        match tab {
            AccountsTabContent::Main(_) => "Accounts",
            AccountsTabContent::Servers(_) => "Servers",
            AccountsTabContent::CommunityServers(_) => "Community Servers",
        }
    }

    /// The accounts, servers and community servers tabs; the first shown.
    pub fn new() -> (r: AccountsTab)
        ensures
            r.selected_tab == 0,
            r.tabs@.len() == 3,
            r.tabs@[0] matches AccountsTabContent::Main(t) && t.selected_server is None,
            r.tabs@[1] is Servers,
            r.tabs@[2] matches AccountsTabContent::CommunityServers(t) && t.fetch.num_retry_attempts
                == 0 && t.fetch.max_retry_attempts == 3 && !t.fetch.is_resolved
                && t.fetch.last_fetched is None,
    {
        let mut tabs: Vec<AccountsTabContent> = Vec::new();
        tabs.push(AccountsTabContent::Main(AccountsMainTab { selected_server: None }));
        tabs.push(AccountsTabContent::Servers(AccountsServersTab {}));
        tabs.push(AccountsTabContent::CommunityServers(AccountsCommunityServersTab::default()));
        AccountsTab { tabs, selected_tab: 0 }
    }
}

/// The main tab of the game tab.
pub struct GameMainTab {}

/// The chat tab of the game tab: the chat lines and a (disabled) input.
pub struct GameChatTab {
    pub current_message: String,
}

impl GameChatTab {
    /// An empty input.
    pub fn default() -> (r: GameChatTab)
        ensures
            r.current_message@ == Seq::<char>::empty(),
    {
        GameChatTab { current_message: String::new() }
    }

    /// How a chat line is shown: `[TODO] text`.
    pub fn line_text(message: &ChatMessage) -> (r: String)
        ensures
            r@ == "[TODO] "@ + message.text@,
    {
        let mut r = string_of("[TODO] ");
        push_str(&mut r, message.text.as_str());
        r
    }
}

impl GameChatTab {
    /// The chat lines shown, oldest first.
    pub fn lines(backend: &Backend) -> (r: Vec<String>)
        ensures
            r@.len() == chat_items(backend.chat_messages).len(),
            forall|i: int|
                0 <= i < r@.len() ==> #[trigger] r@[i]@ == "[TODO] "@ + chat_items(
                    backend.chat_messages,
                )[i].text@,
    {
        let n = chat_ring_len(&backend.chat_messages);
        let mut r: Vec<String> = Vec::new();
        let mut i: usize = 0;
        while i < n
            invariant
                n == chat_items(backend.chat_messages).len(),
                i <= n,
                r@.len() == i,
                forall|j: int|
                    0 <= j < i ==> #[trigger] r@[j]@ == "[TODO] "@ + chat_items(
                        backend.chat_messages,
                    )[j].text@,
            decreases n - i,
        {
            let m = chat_ring_get(&backend.chat_messages, i);
            r.push(Self::line_text(m));
            i = i + 1;
        }
        r
    }
}

/// A tab of the game tab.
pub enum GameTabContent {
    Main(GameMainTab),
    Chat(GameChatTab),
}

/// The game tab: main and chat.
pub struct GameTab {
    pub tabs: Vec<GameTabContent>,
    pub selected_tab: usize,
}

impl GameTab {
    /// The label of a tab.
    pub fn label(tab: &GameTabContent) -> (r: &'static str)
        ensures
            r@ == match *tab {
                GameTabContent::Main(_) => "Main"@,
                GameTabContent::Chat(_) => "Chat"@,
            },
    {
        match tab {
            GameTabContent::Main(_) => "Main",
            GameTabContent::Chat(_) => "Chat",
        }
    }

    /// The main and chat tabs; the first shown.
    pub fn new() -> (r: GameTab)
        ensures
            r.selected_tab == 0,
            r.tabs@.len() == 2,
            r.tabs@[0] is Main,
            r.tabs@[1] matches GameTabContent::Chat(t) && t.current_message@.len() == 0,
    {
        let mut tabs: Vec<GameTabContent> = Vec::new();
        tabs.push(GameTabContent::Main(GameMainTab {}));
        tabs.push(GameTabContent::Chat(GameChatTab::default()));
        GameTab { tabs, selected_tab: 0 }
    }
}

/// The main tab of the developer tab.
pub struct DeveloperMainTab {}

/// The developer tab's view of the client's log.
pub struct DeveloperLogsTab {}

impl DeveloperLogsTab {
    /// The log lines shown, oldest first: `timestamp: message`.
    pub fn lines(backend: &Backend) -> (r: Vec<String>)
        ensures
            r@.len() == log_items(backend.logs).len(),
            forall|i: int|
                0 <= i < r@.len() ==> #[trigger] r@[i]@ == decimal(
                    log_items(backend.logs)[i].timestamp as nat,
                ) + ": "@ + log_items(backend.logs)[i].message@,
    {
        let n = log_ring_len(&backend.logs);
        let mut r: Vec<String> = Vec::new();
        let mut i: usize = 0;
        while i < n
            invariant
                n == log_items(backend.logs).len(),
                i <= n,
                r@.len() == i,
                forall|j: int|
                    0 <= j < i ==> #[trigger] r@[j]@ == decimal(
                        log_items(backend.logs)[j].timestamp as nat,
                    ) + ": "@ + log_items(backend.logs)[j].message@,
            decreases n - i,
        {
            let e = log_ring_get(&backend.logs, i);
            r.push(e.display_text());
            i = i + 1;
        }
        r
    }
}

/// The developer tab's view of the packets that the client received: a list
/// of their times, and the bytes of the one picked.
pub struct DeveloperNetworkIncomingTab {
    pub selected_packet: Option<usize>,
}

impl DeveloperNetworkIncomingTab {
    /// No packet picked.
    pub fn default() -> (r: DeveloperNetworkIncomingTab)
        ensures
            r.selected_packet is None,
    {
        DeveloperNetworkIncomingTab { selected_packet: None }
    }

    /// The label of a packet's button: its time.
    pub fn packet_label(packet: &PacketInfo) -> (r: String)
        ensures
            r@ == decimal(packet.timestamp as nat),
    {
        u64_decimal(packet.timestamp)
    }

    /// The labels of the received packets' buttons, oldest first.
    pub fn labels(backend: &Backend) -> (r: Vec<String>)
        ensures
            r@.len() == packet_items(backend.packets_incoming).len(),
            forall|i: int|
                0 <= i < r@.len() ==> #[trigger] r@[i]@ == decimal(
                    packet_items(backend.packets_incoming)[i].timestamp as nat,
                ),
    {
        let n = packet_ring_len(&backend.packets_incoming);
        let mut r: Vec<String> = Vec::new();
        let mut i: usize = 0;
        while i < n
            invariant
                n == packet_items(backend.packets_incoming).len(),
                i <= n,
                r@.len() == i,
                forall|j: int|
                    0 <= j < i ==> #[trigger] r@[j]@ == decimal(
                        packet_items(backend.packets_incoming)[j].timestamp as nat,
                    ),
            decreases n - i,
        {
            let p = packet_ring_get(&backend.packets_incoming, i);
            r.push(Self::packet_label(p));
            i = i + 1;
        }
        r
    }

    /// The bytes of the picked packet, as a list, when one is picked and
    /// packets are held. The buffer counts positions round: a position past
    /// the end wraps to the start.
    pub fn detail(&self, backend: &Backend) -> (r: Option<String>)
        ensures
            ({
                let items = packet_items(backend.packets_incoming);
                match self.selected_packet {
                    Some(i) => if items.len() > 0 {
                        r matches Some(t) && t@ == byte_list(items[i as int % items.len() as int].data@)
                    } else {
                        r is None
                    },
                    None => r is None,
                }
            }),
    {
        match self.selected_packet {
            Some(i) => {
                let n = packet_ring_len(&backend.packets_incoming);
                if n > 0 {
                    let p = packet_ring_get(&backend.packets_incoming, i % n);
                    Some(p.display_text())
                } else {
                    None
                }
            },
            None => None,
        }
    }

    /// A click on the button of packet `index` picks it.
    pub fn select_packet(&mut self, index: usize)
        ensures
            final(self).selected_packet == Some(index),
    {
        self.selected_packet = Some(index);
    }
}

} // verus!
