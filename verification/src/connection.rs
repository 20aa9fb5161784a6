//! One client of the server, and what the server does with what it receives from it.

use crate::context::{ServerContext, ServerContextView};
use crate::lobby_regex::{LobbyRegex, PatternError};
use crate::message::{
    Action, ActionView, ClientMessage, ClientMessageView, ServerMessage, ServerMessageView,
};
use vstd::prelude::*;

verus! {

broadcast use vstd::std_specs::hash::group_hash_axioms;

/// One client: the number of its socket, and the lobby it hosts, if any.
#[derive(Debug)]
pub struct Connection {
    pub socket_idx: u16,
    pub lobby_name: Option<String>,
}

/// What the reading half of a client's socket comes up with.
#[derive(Debug)]
pub enum Event {
    /// A text that holds a request.
    Message { message: ClientMessage },
    /// A text that holds no request, and why not.
    ParseError { msg: String },
    /// Anything else that leaves the socket open.
    Other,
    /// The client takes its leave.
    Close,
    /// The socket cannot be read.
    ReadError,
    /// There is nothing more to read.
    EndOfStream,
}

/// What follows from an event.
#[derive(Debug)]
pub struct Step {
    /// What to do, in this order.
    pub actions: Vec<Action>,
    /// Whether to go on reading.
    pub open: bool,
}

/// The mathematical value of a [`Connection`].
pub struct ConnectionView {
    pub socket_idx: u16,
    pub lobby_name: Option<Seq<char>>,
}

/// The mathematical value of an [`Event`].
pub enum EventView {
    Message { message: ClientMessageView },
    ParseError { msg: Seq<char> },
    Other,
    Close,
    ReadError,
    EndOfStream,
}

/// The state of the server and of one client, what is left to do, and whether the client stays.
#[verifier::reject_recursive_types(W)]
pub struct Outcome<W> {
    pub ctx: ServerContextView<W>,
    pub connection: ConnectionView,
    pub actions: Seq<ActionView>,
    pub open: bool,
}

impl View for Connection {
    type V = ConnectionView;

    open spec fn view(&self) -> ConnectionView {
        ConnectionView {
            socket_idx: self.socket_idx,
            lobby_name: match self.lobby_name {
                Some(name) => Some(name@),
                None => None,
            },
        }
    }
}

impl View for Event {
    type V = EventView;

    open spec fn view(&self) -> EventView {
        match *self {
            Event::Message { message } => EventView::Message { message: message@ },
            Event::ParseError { msg } => EventView::ParseError { msg: msg@ },
            Event::Other => EventView::Other,
            Event::Close => EventView::Close,
            Event::ReadError => EventView::ReadError,
            Event::EndOfStream => EventView::EndOfStream,
        }
    }
}

/// The values of a list of actions.
pub open spec fn action_views(actions: Seq<Action>) -> Seq<ActionView> {
    actions.map_values(|action: Action| action@)
}

impl ConnectionView {
    /// A client that hosts no lobby yet.
    pub open spec fn initial(socket_idx: u16) -> Self {
        ConnectionView { socket_idx, lobby_name: None }
    }

    /// The lobbies that are left once this client hosts none.
    pub open spec fn lobbies_without(self, lobbies: Map<Seq<char>, u16>) -> Map<Seq<char>, u16> {
        match self.lobby_name {
            Some(name) => lobbies.remove(name),
            None => lobbies,
        }
    }

    /// The action that tells this client `message`.
    pub open spec fn tell(self, message: ServerMessageView) -> ActionView {
        ActionView::Send { to: self.socket_idx, message }
    }

    /// What a new client is told: its number.
    pub open spec fn greeting(self) -> ActionView {
        self.tell(ServerMessageView::TakeANumber { id: self.socket_idx })
    }

    /// The outcome that changes nothing and leaves `actions` to do.
    pub open spec fn stays<W>(self, ctx: ServerContextView<W>, actions: Seq<ActionView>) -> Outcome<
        W,
    > {
        Outcome { ctx, connection: self, actions, open: true }
    }

    /// The outcome of a registration of `name`: where it is granted, the client hosts that lobby
    /// and no other; where it is refused, nothing changes.
    pub open spec fn registers<W>(
        self,
        ctx: ServerContextView<W>,
        name: Seq<char>,
        name_is_valid: bool,
    ) -> Outcome<W> {
        let reply = ctx.registration_reply(name, name_is_valid);
        if reply is AckRegisterLobby {
            Outcome {
                ctx: ServerContextView {
                    lobbies: self.lobbies_without(ctx.lobbies).insert(name, self.socket_idx),
                    ..ctx
                },
                connection: ConnectionView { lobby_name: Some(name), ..self },
                actions: seq![self.tell(reply)],
                open: true,
            }
        } else {
            self.stays(ctx, seq![self.tell(reply)])
        }
    }

    /// The outcome of a request.
    pub open spec fn responds<W>(
        self,
        ctx: ServerContextView<W>,
        admits: spec_fn(Seq<char>) -> bool,
        message: ClientMessageView,
    ) -> Outcome<W> {
        match message {
            ClientMessageView::RegisterLobby { lobby_name } => self.registers(
                ctx,
                lobby_name,
                admits(lobby_name),
            ),
            ClientMessageView::GetLobbies => self.stays(
                ctx,
                seq![self.tell(ServerMessageView::SendLobbyData { lobbies: ctx.lobbies })],
            ),
            ClientMessageView::SendOffer { to, offer } => self.stays(
                ctx,
                seq![
                    ActionView::Send {
                        to,
                        message: ServerMessageView::ReceiveOffer { from: self.socket_idx, offer },
                    },
                    self.tell(ServerMessageView::AckSendOffer),
                ],
            ),
            ClientMessageView::SendResponse { to, response } => self.stays(
                ctx,
                seq![
                    ActionView::Send {
                        to,
                        message: ServerMessageView::ReceiveResponse {
                            from: self.socket_idx,
                            response,
                        },
                    },
                    self.tell(ServerMessageView::AckSendResponse),
                ],
            ),
            ClientMessageView::SendIce { to, ice } => self.stays(
                ctx,
                seq![
                    ActionView::Send {
                        to,
                        message: ServerMessageView::ReceiveIce { from: self.socket_idx, ice },
                    },
                    self.tell(ServerMessageView::AckSendIce),
                ],
            ),
            ClientMessageView::DebugPrint { data } => self.stays(
                ctx,
                seq![ActionView::Print { from: self.socket_idx, data }],
            ),
        }
    }

    /// The outcome of the client's leaving: its socket and its lobby are given up.
    pub open spec fn leaves<W>(self, ctx: ServerContextView<W>) -> Outcome<W> {
        Outcome {
            ctx: ServerContextView {
                writers: ctx.writers.remove(self.socket_idx),
                lobbies: self.lobbies_without(ctx.lobbies),
                ..ctx
            },
            connection: ConnectionView { lobby_name: None, ..self },
            actions: seq![],
            open: false,
        }
    }

    /// The outcome of an event.
    pub open spec fn handles<W>(
        self,
        ctx: ServerContextView<W>,
        admits: spec_fn(Seq<char>) -> bool,
        event: EventView,
    ) -> Outcome<W> {
        match event {
            EventView::Message { message } => self.responds(ctx, admits, message),
            EventView::ParseError { msg } => self.stays(
                ctx,
                seq![self.tell(ServerMessageView::ErrorParse { msg })],
            ),
            EventView::Other => self.stays(ctx, seq![]),
            EventView::Close | EventView::ReadError | EventView::EndOfStream => self.leaves(ctx),
        }
    }

    /// The client after a run of events, each with the shared state that it was handled in.
    pub open spec fn after<W>(
        self,
        admits: spec_fn(Seq<char>) -> bool,
        events: Seq<(ServerContextView<W>, EventView)>,
    ) -> Self
        decreases events.len(),
    {
        if events.len() == 0 {
            self
        } else {
            let (ctx, event) = events.last();
            self.after(admits, events.drop_last()).handles(ctx, admits, event).connection
        }
    }

    /// The outcome of the last of a run of events, where nobody else acts in between.
    pub open spec fn alone<W>(
        self,
        ctx: ServerContextView<W>,
        admits: spec_fn(Seq<char>) -> bool,
        events: Seq<EventView>,
    ) -> Outcome<W>
        decreases events.len(),
    {
        if events.len() == 0 {
            self.stays(ctx, seq![])
        } else {
            let before = self.alone(ctx, admits, events.drop_last());
            before.connection.handles(before.ctx, admits, events.last())
        }
    }

    /// All that is done for a client, in order: its greeting, then what follows from each of a run
    /// of events.
    pub open spec fn session<W>(
        self,
        admits: spec_fn(Seq<char>) -> bool,
        events: Seq<(ServerContextView<W>, EventView)>,
    ) -> Seq<ActionView>
        decreases events.len(),
    {
        if events.len() == 0 {
            seq![self.greeting()]
        } else {
            let (ctx, event) = events.last();
            self.session(admits, events.drop_last()) + self.after(
                admits,
                events.drop_last(),
            ).handles(ctx, admits, event).actions
        }
    }
}

impl Connection {
    /// A client that hosts no lobby yet.
    pub fn new(socket_idx: u16) -> (connection: Self)
        ensures
            connection@ == ConnectionView::initial(socket_idx),
            connection.socket_idx == socket_idx,
            connection.lobby_name is None,
    {
        Connection { socket_idx, lobby_name: None }
    }

    /// What a new client is met with: the rule for lobby names is compiled for it, and it is greeted
    /// as [`Connection::greet`] says of what the compiling gave.
    pub fn start<W>(&self, ctx: &ServerContext<W>) -> (started: Result<
        (LobbyRegex, Action),
        PatternError,
    >)
        ensures
            (started is Err && started->Err_0 == PatternError::Syntax)
                == !crate::lobby_regex::pattern_is_valid(ctx@.config.username_regex),
            started matches Ok((rule, greeting)) ==> {
                &&& forall|name: Seq<char>| #[trigger]
                    rule.admits(name) == crate::lobby_regex::pattern_matches(
                        ctx@.config.username_regex,
                        name,
                    )
                &&& greeting@ == self@.greeting()
                &&& greeting@ == (ActionView::Send {
                    to: self.socket_idx,
                    message: ServerMessageView::TakeANumber { id: self.socket_idx },
                })
            },
    {
        self.greet(ctx.lobby_regex())
    }

    /// Greets a new client, given its compiled rule for lobby names: the client is told its number
    /// and goes on under that rule. Where the rule did not compile, it gets no answer.
    pub fn greet(&self, compiled: Result<LobbyRegex, PatternError>) -> (started: Result<
        (LobbyRegex, Action),
        PatternError,
    >)
        ensures
            match compiled {
                Ok(rule) => {
                    &&& started is Ok
                    &&& started->Ok_0.0 == rule
                    &&& started->Ok_0.1@ == self@.greeting()
                    &&& started->Ok_0.1@ == (ActionView::Send {
                        to: self.socket_idx,
                        message: ServerMessageView::TakeANumber { id: self.socket_idx },
                    })
                },
                Err(error) => started is Err && started->Err_0 == error,
            },
    {
        match compiled {
            Ok(rule) => Ok((rule, self.tell(ServerMessage::TakeANumber { id: self.socket_idx }))),
            Err(error) => Err(error),
        }
    }

    /// The action that tells this client `message`.
    fn tell(&self, message: ServerMessage) -> (action: Action)
        ensures
            action@ == self@.tell(message@),
            action == (Action::Send { to: self.socket_idx, message }),
    {
        Action::Send { to: self.socket_idx, message }
    }

    /// Registers a lobby for this client, given whether the rule for names admits its name, and
    /// returns the answer.
    pub fn register_lobby<W>(
        &mut self,
        ctx: &mut ServerContext<W>,
        lobby_name: String,
        name_is_valid: bool,
    ) -> (reply: ServerMessage)
        ensures
            final(ctx)@ == old(self)@.registers(old(ctx)@, lobby_name@, name_is_valid).ctx,
            final(self)@ == old(self)@.registers(old(ctx)@, lobby_name@, name_is_valid).connection,
            reply@ == old(ctx)@.registration_reply(lobby_name@, name_is_valid),
            reply is ErrorInvalidLobbyName <==> !name_is_valid,
            reply is ErrorLobbyExists <==> name_is_valid && old(ctx)@.lobbies.contains_key(
                lobby_name@,
            ),
            reply is AckRegisterLobby <==> name_is_valid && !old(ctx)@.lobbies.contains_key(
                lobby_name@,
            ),
            final(self).socket_idx == old(self).socket_idx,
            final(ctx)@.writers == old(ctx)@.writers,
            final(ctx)@.config == old(ctx)@.config,
            reply is AckRegisterLobby ==> {
                &&& final(self).lobby_name is Some
                &&& final(self).lobby_name->0@ == lobby_name@
                &&& final(ctx)@.lobbies == (match old(self).lobby_name {
                    Some(name) => old(ctx)@.lobbies.remove(name@),
                    None => old(ctx)@.lobbies,
                }).insert(lobby_name@, old(self).socket_idx)
            },
            !(reply is AckRegisterLobby) ==> final(ctx)@ == old(ctx)@ && final(self)@ == old(self)@,
    {
        if !name_is_valid {
            return ServerMessage::ErrorInvalidLobbyName;
        }
        if ctx.lobby_names.contains_key(&lobby_name) {
            return ServerMessage::ErrorLobbyExists;
        }
        self.give_up_lobby(ctx);
        ctx.lobby_names.insert(lobby_name.clone(), self.socket_idx);
        self.lobby_name = Some(lobby_name);
        ServerMessage::AckRegisterLobby
    }

    /// Gives up the lobby that this client hosts, if any.
    fn give_up_lobby<W>(&mut self, ctx: &mut ServerContext<W>)
        ensures
            final(self)@ == (ConnectionView { lobby_name: None, ..old(self)@ }),
            final(ctx)@ == (ServerContextView {
                lobbies: old(self)@.lobbies_without(old(ctx)@.lobbies),
                ..old(ctx)@
            }),
    {
        match self.lobby_name.take() {
            Some(name) => ctx.lobby_names.remove(&name),
            None => {},
        }
    }

    /// Carries out a request of this client.
    pub fn handle_message<W>(
        &mut self,
        ctx: &mut ServerContext<W>,
        lobby_regex: &LobbyRegex,
        message: ClientMessage,
    ) -> (actions: Vec<Action>)
        ensures
            ({
                let admits = |name: Seq<char>| lobby_regex.admits(name);
                let outcome = old(self)@.responds(old(ctx)@, admits, message@);
                &&& final(ctx)@ == outcome.ctx
                &&& final(self)@ == outcome.connection
                &&& action_views(actions@) == outcome.actions
            }),
    {
        let mut actions: Vec<Action> = Vec::new();
        match message {
            ClientMessage::RegisterLobby { lobby_name } => {
                let name_is_valid: bool = lobby_regex.is_match(lobby_name.as_str());
                let reply: ServerMessage = self.register_lobby(ctx, lobby_name, name_is_valid);
                actions.push(self.tell(reply));
            },
            ClientMessage::GetLobbies => {
                let lobbies = ctx.lobby_names.copy();
                actions.push(self.tell(ServerMessage::SendLobbyData { lobbies }));
            },
            ClientMessage::SendOffer { to, offer } => {
                actions.push(
                    Action::Send {
                        to,
                        message: ServerMessage::ReceiveOffer { from: self.socket_idx, offer },
                    },
                );
                actions.push(self.tell(ServerMessage::AckSendOffer));
            },
            ClientMessage::SendResponse { to, response } => {
                actions.push(
                    Action::Send {
                        to,
                        message: ServerMessage::ReceiveResponse { from: self.socket_idx, response },
                    },
                );
                actions.push(self.tell(ServerMessage::AckSendResponse));
            },
            ClientMessage::SendIce { to, ice } => {
                actions.push(
                    Action::Send {
                        to,
                        message: ServerMessage::ReceiveIce { from: self.socket_idx, ice },
                    },
                );
                actions.push(self.tell(ServerMessage::AckSendIce));
            },
            ClientMessage::DebugPrint { data } => {
                actions.push(Action::Print { from: self.socket_idx, data });
            },
        }
        actions
    }

    /// Closes the connection: gives up its socket and its lobby.
    pub fn close<W>(&mut self, ctx: &mut ServerContext<W>)
        ensures
            final(ctx)@ == old(self)@.leaves(old(ctx)@).ctx,
            final(self)@ == old(self)@.leaves(old(ctx)@).connection,
            final(self).socket_idx == old(self).socket_idx,
            final(self).lobby_name is None,
            final(ctx)@.config == old(ctx)@.config,
            final(ctx)@.writers == old(ctx)@.writers.remove(old(self).socket_idx),
            final(ctx)@.lobbies == (match old(self).lobby_name {
                Some(name) => old(ctx)@.lobbies.remove(name@),
                None => old(ctx)@.lobbies,
            }),
    {
        ctx.writers.remove(&self.socket_idx);
        self.give_up_lobby(ctx);
    }

    /// Handles what was read from this client's socket.
    pub fn handle_event<W>(
        &mut self,
        ctx: &mut ServerContext<W>,
        lobby_regex: &LobbyRegex,
        event: Event,
    ) -> (step: Step)
        ensures
            ({
                let admits = |name: Seq<char>| lobby_regex.admits(name);
                let outcome = old(self)@.handles(old(ctx)@, admits, event@);
                &&& final(ctx)@ == outcome.ctx
                &&& final(self)@ == outcome.connection
                &&& action_views(step.actions@) == outcome.actions
                &&& step.open == outcome.open
            }),
    {
        match event {
            Event::Message { message } => {
                let actions: Vec<Action> = self.handle_message(ctx, lobby_regex, message);
                Step { actions, open: true }
            },
            Event::ParseError { msg } => {
                let mut actions: Vec<Action> = Vec::new();
                actions.push(self.tell(ServerMessage::ErrorParse { msg }));
                Step { actions, open: true }
            },
            Event::Other => Step { actions: Vec::new(), open: true },
            Event::Close | Event::ReadError | Event::EndOfStream => {
                self.close(ctx);
                Step { actions: Vec::new(), open: false }
            },
        }
    }
}

/// The value of a client holds its number and the name of its lobby.
pub proof fn law_client_value(client: Connection)
    ensures
        client@.socket_idx == client.socket_idx,
        client.lobby_name matches Some(name) ==> client@.lobby_name == Some(name@),
        client.lobby_name is None ==> client@.lobby_name is None,
{
}

/// The value of an event says which event it is and holds what it carries.
pub proof fn law_event_value(message: ClientMessage, msg: String)
    ensures
        (Event::Message { message })@ == (EventView::Message { message: message@ }),
        (Event::ParseError { msg })@ == (EventView::ParseError { msg: msg@ }),
        Event::Other@ == EventView::Other,
        Event::Close@ == EventView::Close,
        Event::ReadError@ == EventView::ReadError,
        Event::EndOfStream@ == EventView::EndOfStream,
{
}

/// The values of a list of actions are those of its members, in order.
pub proof fn law_action_values(actions: Seq<Action>)
    ensures
        action_views(actions).len() == actions.len(),
        forall|i: int|
            0 <= i < actions.len() ==> #[trigger] action_views(actions)[i] == actions[i]@,
{
}

} // verus!
