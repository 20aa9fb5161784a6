//! What the connections of the server share.

use crate::connection::{Connection, ConnectionView};
use crate::lobby_names::LobbyNames;
use crate::lobby_regex::{LobbyRegex, PatternError};
use crate::message::ServerMessageView;
use std::collections::hash_map::Entry;
use std::collections::HashMap;
use vstd::prelude::*;

verus! {

broadcast use vstd::std_specs::hash::group_hash_axioms;

/// The settings of the server.
#[derive(Debug)]
pub struct ServerConfig {
    /// The port to listen on where the `PORT` variable is not set.
    pub default_port: u16,
    /// The regular expression that a lobby name has to match.
    pub username_regex: String,
}

/// The mathematical value of a [`ServerConfig`].
pub struct ServerConfigView {
    pub default_port: u16,
    pub username_regex: Seq<char>,
}

impl View for ServerConfig {
    type V = ServerConfigView;

    open spec fn view(&self) -> ServerConfigView {
        ServerConfigView {
            default_port: self.default_port,
            username_regex: self.username_regex@,
        }
    }
}

/// The shared state: the settings, the writing half of each open socket by the socket's number,
/// and the registered lobbies.
#[verifier::reject_recursive_types(W)]
pub struct ServerContext<W> {
    pub config: ServerConfig,
    pub writers: HashMap<u16, W>,
    pub lobby_names: LobbyNames,
}

/// The mathematical value of a [`ServerContext`].
#[verifier::reject_recursive_types(W)]
pub struct ServerContextView<W> {
    pub config: ServerConfigView,
    pub writers: Map<u16, W>,
    pub lobbies: Map<Seq<char>, u16>,
}

impl<W> View for ServerContext<W> {
    type V = ServerContextView<W>;

    open spec fn view(&self) -> ServerContextView<W> {
        ServerContextView {
            config: self.config@,
            writers: self.writers@,
            lobbies: self.lobby_names@,
        }
    }
}

impl<W> ServerContextView<W> {
    /// The state of a server that has accepted nobody yet.
    pub open spec fn initial(config: ServerConfigView) -> Self {
        ServerContextView { config, writers: Map::empty(), lobbies: Map::empty() }
    }

    /// The state once socket number `socket_idx` is accepted.
    pub open spec fn accepted(self, socket_idx: u16, writer: W) -> Self {
        ServerContextView { writers: self.writers.insert(socket_idx, writer), ..self }
    }

    /// How the server answers a registration of `name`, which the rule for names admits or not.
    pub open spec fn registration_reply(
        self,
        name: Seq<char>,
        name_is_valid: bool,
    ) -> ServerMessageView {
        if !name_is_valid {
            ServerMessageView::ErrorInvalidLobbyName
        } else if self.lobbies.contains_key(name) {
            ServerMessageView::ErrorLobbyExists
        } else {
            ServerMessageView::AckRegisterLobby
        }
    }
}

/// The number that the socket accepted after socket number `socket_idx` gets.
pub fn next_socket_idx(socket_idx: u16) -> (next: u16)
    requires
        socket_idx < u16::MAX,
    ensures
        next == socket_idx + 1,
{
    socket_idx + 1
}

impl<W> ServerContext<W> {
    /// The state of a server that has accepted nobody yet.
    pub fn new(config: ServerConfig) -> (ctx: Self)
        ensures
            ctx@ == ServerContextView::<W>::initial(config@),
            ctx.config == config,
            ctx.writers@ == Map::<u16, W>::empty(),
            ctx.lobby_names@ == Map::<Seq<char>, u16>::empty(),
    {
        ServerContext { config, writers: HashMap::new(), lobby_names: LobbyNames::new() }
    }

    /// Takes in a newly accepted socket: keeps its writing half and sets up its connection.
    pub fn accept(&mut self, socket_idx: u16, writer: W) -> (connection: Connection)
        ensures
            final(self)@ == old(self)@.accepted(socket_idx, writer),
            connection@ == ConnectionView::initial(socket_idx),
            connection.socket_idx == socket_idx,
            connection.lobby_name is None,
            final(self).writers@ == old(self).writers@.insert(socket_idx, writer),
            final(self).lobby_names == old(self).lobby_names,
            final(self).config == old(self).config,
    {
        self.writers.insert(socket_idx, writer);
        Connection::new(socket_idx)
    }

    /// Where to write what is meant for socket number `socket_idx`, if that socket is open.
    pub fn writer_mut(&mut self, socket_idx: u16) -> (writer: Option<&mut W>)
        ensures
            final(self)@.config == old(self)@.config,
            final(self)@.lobbies == old(self)@.lobbies,
            writer is Some <==> old(self)@.writers.contains_key(socket_idx),
            match writer {
                Some(writer) => {
                    &&& *writer == old(self)@.writers[socket_idx]
                    &&& final(self)@.writers == old(self)@.writers.insert(
                        socket_idx,
                        *final(writer),
                    )
                },
                None => final(self)@.writers == old(self)@.writers,
            },
    {
        match self.writers.entry(socket_idx) {
            Entry::Occupied(entry) => Some(entry.into_mut()),
            Entry::Vacant(_) => None,
        }
    }

    /// Compiles the rule for lobby names out of the settings.
    pub fn lobby_regex(&self) -> (rule: Result<LobbyRegex, PatternError>)
        ensures
            (rule is Err && rule->Err_0 == PatternError::Syntax) == !crate::lobby_regex::pattern_is_valid(
                self@.config.username_regex,
            ),
            rule matches Ok(rule) ==> forall|name: Seq<char>| #[trigger]
                rule.admits(name) == crate::lobby_regex::pattern_matches(
                    self@.config.username_regex,
                    name,
                ),
    {
        LobbyRegex::new(self.config.username_regex.as_str())
    }
}

/// The value of the shared state holds the settings, the writers by number and the lobbies by name.
pub proof fn law_context_value<W>(ctx: ServerContext<W>)
    ensures
        ctx@.config.default_port == ctx.config.default_port,
        ctx@.config.username_regex == ctx.config.username_regex@,
        ctx@.config == ctx.config@,
        ctx@.writers == ctx.writers@,
        ctx@.lobbies == ctx.lobby_names@,
{
}

} // verus!
