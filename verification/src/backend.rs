//! The desktop application's backend state: what the injected client reported
//! (logs, packets, chat), the fetched news and server list, and how each
//! message from the client or from a background fetch updates it.
use vstd::prelude::*;

use ringbuffer::AllocRingBuffer;

use crate::format::{decimal, u64_decimal, usize_decimal};
use crate::ring::{
    chat_capacity, chat_items, chat_ring_len, chat_ring_new, chat_ring_push, log_capacity,
    log_items, log_ring_new, log_ring_push, packet_capacity, packet_items, packet_ring_new,
    packet_ring_push, pushed,
};
use crate::text::{push_chars, push_str, string_of};

verus! {

/// How many entries each of the backend's buffers keeps.
pub const BUFFER_CAPACITY: usize = 10000;

/// A log line that the injected client sent.
pub struct LogEntry {
    pub timestamp: u64,
    pub message: String,
}

impl LogEntry {
    /// The entry as the log view shows it: `timestamp: message`.
    pub fn display_text(&self) -> (r: String)
        ensures
            r@ == decimal(self.timestamp as nat) + ": "@ + self.message@,
    {
        let mut r = u64_decimal(self.timestamp);
        push_str(&mut r, ": ");
        push_str(&mut r, self.message.as_str());
        r
    }
}

/// A chat line that the injected client saw.
pub struct ChatMessage {
    pub index: usize,
    pub timestamp: u64,
    pub text: String,
}

/// A network packet that the injected client sent or received.
pub struct PacketInfo {
    pub index: usize,
    pub timestamp: u64,
    pub data: Vec<u8>,
}

/// The bytes of `data` as a list: `[1, 2, 3]`.
pub open spec fn byte_list(data: Seq<u8>) -> Seq<char>
    decreases data.len(),
{
    if data.len() == 0 {
        "[]"@
    } else {
        "["@ + byte_list_inner(data) + "]"@
    }
}

/// The bytes of `data`, in decimal, separated by `, `.
pub open spec fn byte_list_inner(data: Seq<u8>) -> Seq<char>
    decreases data.len(),
{
    if data.len() == 0 {
        Seq::empty()
    } else if data.len() == 1 {
        decimal(data[0] as nat)
    } else {
        byte_list_inner(data.drop_last()) + ", "@ + decimal(data.last() as nat)
    }
}

impl PacketInfo {
    /// An empty packet at index 0.
    pub fn default() -> (r: PacketInfo)
        ensures
            r.index == 0,
            r.timestamp == 0,
            r.data@.len() == 0,
    {
        PacketInfo { index: 0, timestamp: 0, data: Vec::new() }
    }

    /// The packet as the network view shows it: its bytes as a list.
    pub fn display_text(&self) -> (r: String)
        ensures
            r@ == byte_list(self.data@),
    {
        let mut r = string_of("[");
        let mut i: usize = 0;
        let ghost d = self.data@;
        while i < self.data.len()
            invariant
                d == self.data@,
                i <= d.len(),
                r@ == "["@ + byte_list_inner(d.take(i as int)),
            decreases d.len() - i,
        {
            proof {
                assert(d.take(i + 1).drop_last() =~= d.take(i as int));
                assert(d.take(i + 1).last() == d[i as int]);
            }
            if i > 0 {
                push_str(&mut r, ", ");
            }
            let digits = usize_decimal(self.data[i] as usize);
            push_str(&mut r, digits.as_str());
            proof {
                if i == 0 {
                    assert(d.take(1) =~= seq![d[0]]);
                    assert(byte_list_inner(d.take(0)) =~= Seq::<char>::empty());
                }
            }
            i = i + 1;
        }
        proof {
            assert(d.take(d.len() as int) =~= d);
            reveal_strlit("[]");
            reveal_strlit("[");
            reveal_strlit("]");
            if d.len() == 0 {
                assert(byte_list_inner(d) =~= Seq::<char>::empty());
            }
        }
        if self.data.len() == 0 {
            push_str(&mut r, "]");
            proof {
                assert(r@ =~= "[]"@);
            }
        } else {
            push_str(&mut r, "]");
        }
        r
    }
}

/// An item of the published news.
pub struct NewsEntry {
    pub subject: String,
    pub body: String,
    pub author: String,
    pub source_url: String,
    /// Seconds since the Unix epoch.
    pub created_at: u64,
}

/// The published news.
pub struct News {
    pub entries: Vec<NewsEntry>,
}

/// The news document as published: `{"news": {"records": [...]}}`.
pub struct NewsResponseInner {
    pub records: Vec<NewsEntry>,
}

/// The news document as published.
pub struct NewsResponse {
    pub news: NewsResponseInner,
}

impl News {
    /// The news that a fetched document holds.
    pub fn from_response(response: NewsResponse) -> (r: News)
        ensures
            r.entries == response.news.records,
    {
        News { entries: response.news.records }
    }
}

/// A server of the community server list.
pub struct CommunityServersServerItem {
    pub id: String,
    pub name: String,
    pub description: String,
    pub emu: String,
    pub server_host: String,
    pub server_port: String,
    /// The list's `type` column.
    pub server_type: String,
    pub status: String,
    pub website_url: Option<String>,
    pub discord_url: Option<String>,
}

/// The community server list.
pub struct CommunityServers {
    pub servers: Vec<CommunityServersServerItem>,
}

/// Where a background fetch stands.
pub enum FetchWrapper<T> {
    NotStarted,
    Started,
    Retrying(u32),
    Success(T),
    /// The fetch failed with this message.
    Failed(String),
}

impl FetchWrapper<News> {
    /// What a finished news fetch reports: the news it read, or its error.
    pub fn from_news_result(result: Result<NewsResponse, String>) -> (r: FetchWrapper<News>)
        ensures
            match result {
                Ok(resp) => r matches FetchWrapper::Success(n) && n.entries == resp.news.records,
                Err(e) => r == FetchWrapper::<News>::Failed(e),
            },
    {
        match result {
            Ok(resp) => FetchWrapper::Success(News::from_response(resp)),
            Err(e) => FetchWrapper::Failed(e),
        }
    }
}

/// A request to the background fetcher.
#[derive(Debug, PartialEq, Eq, Structural)]
pub enum BackgroundFetchRequest {
    FetchNews,
    FetchCommunityServers,
}

/// What the background fetcher reports back.
pub enum BackgroundFetchUpdateMessage {
    NewsUpdate(FetchWrapper<News>),
    CommunityServersUpdate(FetchWrapper<CommunityServers>),
}

/// The process of a launched client.
pub struct Client {
    pid: u32,
}

impl Client {
    #[verifier::type_invariant]
    spec fn inv(self) -> bool {
        self.pid != 0
    }

    /// The client's process id.
    pub closed spec fn pid_of(self) -> u32 {
        self.pid
    }

    /// The client running as process `pid`, which is never 0.
    pub fn new(pid: u32) -> (r: Client)
        requires
            pid != 0,
        ensures
            r.pid_of() == pid,
    {
        Client { pid }
    }

    /// The client's process id, which is never 0.
    pub fn pid(&self) -> (r: u32)
        ensures
            r == self.pid_of(),
            r != 0,
    {
        proof {
            use_type_invariant(self);
        }
        self.pid
    }
}

/// Packet counts.
#[derive(Clone, Copy)]
pub struct NetworkStatistics {
    pub incoming_count: usize,
    pub outgoing_count: usize,
}

/// Statistics of the injected client.
#[derive(Clone, Copy)]
pub struct Statistics {
    pub network: NetworkStatistics,
}

impl Statistics {
    /// No packets seen yet.
    pub fn default() -> (r: Statistics)
        ensures
            r.network.incoming_count == 0,
            r.network.outgoing_count == 0,
    {
        Statistics { network: NetworkStatistics { incoming_count: 0, outgoing_count: 0 } }
    }
}

/// A message box over the application.
pub struct AppModal {
    pub title: String,
    pub text: String,
}

/// A message from the injected client.
pub enum ClientServerMessage {
    ClientInjected,
    ClientEjected,
    AppendLog(String),
    HandleSendTo(Vec<u8>),
    HandleRecvFrom(Vec<u8>),
    HandleAddTextToScroll(String),
}

/// Everything the desktop application shows.
pub struct Backend {
    pub status_message: Option<String>,
    pub news: FetchWrapper<News>,
    pub community_servers: FetchWrapper<CommunityServers>,
    pub client: Option<Client>,
    pub is_injected: bool,
    pub logs: AllocRingBuffer<LogEntry>,
    pub packets_incoming: AllocRingBuffer<PacketInfo>,
    pub packets_outgoing: AllocRingBuffer<PacketInfo>,
    pub chat_messages: AllocRingBuffer<ChatMessage>,
    pub statistics: Statistics,
    pub current_modal: Option<AppModal>,
}

impl Backend {
    /// Each buffer holds at most its capacity.
    pub open spec fn buffers_within_capacity(self) -> bool {
        &&& log_items(self.logs).len() <= log_capacity(self.logs)
        &&& packet_items(self.packets_incoming).len() <= packet_capacity(self.packets_incoming)
        &&& packet_items(self.packets_outgoing).len() <= packet_capacity(self.packets_outgoing)
        &&& chat_items(self.chat_messages).len() <= chat_capacity(self.chat_messages)
    }

    /// A backend with nothing received yet and buffers of `BUFFER_CAPACITY`.
    pub fn new() -> (r: Backend)
        ensures
            r.status_message is None,
            r.news is NotStarted,
            r.community_servers is NotStarted,
            r.client is None,
            !r.is_injected,
            log_items(r.logs).len() == 0,
            log_capacity(r.logs) == BUFFER_CAPACITY,
            packet_items(r.packets_incoming).len() == 0,
            packet_capacity(r.packets_incoming) == BUFFER_CAPACITY,
            packet_items(r.packets_outgoing).len() == 0,
            packet_capacity(r.packets_outgoing) == BUFFER_CAPACITY,
            chat_items(r.chat_messages).len() == 0,
            chat_capacity(r.chat_messages) == BUFFER_CAPACITY,
            r.statistics.network.incoming_count == 0,
            r.statistics.network.outgoing_count == 0,
            r.current_modal is None,
            r.buffers_within_capacity(),
    {
        Backend {
            status_message: None,
            news: FetchWrapper::NotStarted,
            community_servers: FetchWrapper::NotStarted,
            client: None,
            is_injected: false,
            logs: log_ring_new(BUFFER_CAPACITY),
            packets_incoming: packet_ring_new(BUFFER_CAPACITY),
            packets_outgoing: packet_ring_new(BUFFER_CAPACITY),
            chat_messages: chat_ring_new(BUFFER_CAPACITY),
            statistics: Statistics::default(),
            current_modal: None,
        }
    }

    /// Applies a message from the injected client, received at `now`
    /// (seconds since the Unix epoch): injection state, a log line, a sent or
    /// received packet (counted, and numbered by the new count), or a chat
    /// line (numbered by the number of chat lines held).
    pub fn handle_message(&mut self, msg: ClientServerMessage, now: u64)
        requires
            old(self).buffers_within_capacity(),
            msg is HandleSendTo ==> old(self).statistics.network.outgoing_count < usize::MAX,
            msg is HandleRecvFrom ==> old(self).statistics.network.incoming_count < usize::MAX,
        ensures
            final(self).buffers_within_capacity(),
            final(self).status_message == old(self).status_message,
            final(self).news == old(self).news,
            final(self).community_servers == old(self).community_servers,
            final(self).client == old(self).client,
            final(self).current_modal == old(self).current_modal,
            final(self).is_injected == match msg {
                ClientServerMessage::ClientInjected => true,
                ClientServerMessage::ClientEjected => false,
                _ => old(self).is_injected,
            },
            log_capacity(final(self).logs) == log_capacity(old(self).logs),
            log_items(final(self).logs) == match msg {
                ClientServerMessage::AppendLog(m) => pushed(
                    log_items(old(self).logs),
                    log_capacity(old(self).logs),
                    LogEntry { timestamp: now, message: m },
                ),
                _ => log_items(old(self).logs),
            },
            final(self).statistics.network.outgoing_count == old(self).statistics.network.outgoing_count
                + if msg is HandleSendTo { 1int } else { 0int },
            final(self).statistics.network.incoming_count == old(self).statistics.network.incoming_count
                + if msg is HandleRecvFrom { 1int } else { 0int },
            packet_capacity(final(self).packets_outgoing) == packet_capacity(old(self).packets_outgoing),
            packet_items(final(self).packets_outgoing) == match msg {
                ClientServerMessage::HandleSendTo(d) => pushed(
                    packet_items(old(self).packets_outgoing),
                    packet_capacity(old(self).packets_outgoing),
                    PacketInfo {
                        index: (old(self).statistics.network.outgoing_count + 1) as usize,
                        timestamp: now,
                        data: d,
                    },
                ),
                _ => packet_items(old(self).packets_outgoing),
            },
            packet_capacity(final(self).packets_incoming) == packet_capacity(old(self).packets_incoming),
            packet_items(final(self).packets_incoming) == match msg {
                ClientServerMessage::HandleRecvFrom(d) => pushed(
                    packet_items(old(self).packets_incoming),
                    packet_capacity(old(self).packets_incoming),
                    PacketInfo {
                        index: (old(self).statistics.network.incoming_count + 1) as usize,
                        timestamp: now,
                        data: d,
                    },
                ),
                _ => packet_items(old(self).packets_incoming),
            },
            chat_capacity(final(self).chat_messages) == chat_capacity(old(self).chat_messages),
            chat_items(final(self).chat_messages) == match msg {
                ClientServerMessage::HandleAddTextToScroll(t) => pushed(
                    chat_items(old(self).chat_messages),
                    chat_capacity(old(self).chat_messages),
                    ChatMessage {
                        index: chat_items(old(self).chat_messages).len() as usize,
                        timestamp: now,
                        text: t,
                    },
                ),
                _ => chat_items(old(self).chat_messages),
            },
    {
        match msg {
            ClientServerMessage::ClientInjected => {
                self.is_injected = true;
            },
            ClientServerMessage::ClientEjected => {
                self.is_injected = false;
            },
            ClientServerMessage::AppendLog(message) => {
                log_ring_push(&mut self.logs, LogEntry { timestamp: now, message });
            },
            ClientServerMessage::HandleSendTo(data) => {
                self.statistics.network.outgoing_count = self.statistics.network.outgoing_count + 1;
                let index = self.statistics.network.outgoing_count;
                packet_ring_push(&mut self.packets_outgoing, PacketInfo { index, timestamp: now, data });
            },
            ClientServerMessage::HandleRecvFrom(data) => {
                self.statistics.network.incoming_count = self.statistics.network.incoming_count + 1;
                let index = self.statistics.network.incoming_count;
                packet_ring_push(&mut self.packets_incoming, PacketInfo { index, timestamp: now, data });
            },
            ClientServerMessage::HandleAddTextToScroll(text) => {
                let index = chat_ring_len(&self.chat_messages);
                chat_ring_push(&mut self.chat_messages, ChatMessage { index, timestamp: now, text });
            },
        }
    }

    /// Applies what the background fetcher reported.
    pub fn handle_fetch_update(&mut self, update: BackgroundFetchUpdateMessage)
        ensures
            match update {
                BackgroundFetchUpdateMessage::NewsUpdate(w) => final(self).news == w
                    && final(self).community_servers == old(self).community_servers,
                BackgroundFetchUpdateMessage::CommunityServersUpdate(w) => final(self).community_servers == w
                    && final(self).news == old(self).news,
            },
            final(self).logs == old(self).logs,
            final(self).packets_incoming == old(self).packets_incoming,
            final(self).packets_outgoing == old(self).packets_outgoing,
            final(self).chat_messages == old(self).chat_messages,
            final(self).statistics == old(self).statistics,
            final(self).is_injected == old(self).is_injected,
            final(self).client == old(self).client,
            final(self).status_message == old(self).status_message,
            final(self).current_modal == old(self).current_modal,
    {
        match update {
            BackgroundFetchUpdateMessage::NewsUpdate(w) => {
                self.news = w;
            },
            BackgroundFetchUpdateMessage::CommunityServersUpdate(w) => {
                self.community_servers = w;
            },
        }
    }

    /// The "Close" button of the message box.
    pub fn close_modal(&mut self)
        ensures
            final(self).current_modal is None,
            final(self).status_message == old(self).status_message,
            final(self).news == old(self).news,
            final(self).community_servers == old(self).community_servers,
            final(self).client == old(self).client,
            final(self).is_injected == old(self).is_injected,
            final(self).logs == old(self).logs,
            final(self).packets_incoming == old(self).packets_incoming,
            final(self).packets_outgoing == old(self).packets_outgoing,
            final(self).chat_messages == old(self).chat_messages,
            final(self).statistics == old(self).statistics,
    {
        self.current_modal = None;
    }

    /// The text of the status bar.
    pub fn status_text(&self) -> (r: String)
        ensures
            r@ == match self.status_message {
                Some(m) => m@,
                None => "Ready"@,
            },
    {
        match &self.status_message {
            Some(m) => m.clone(),
            None => string_of("Ready"),
        }
    }
}

} // verus!
