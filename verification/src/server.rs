//! The server as a whole: all its clients together, and what holds of them at any time.

use crate::connection::{ConnectionView, EventView, Outcome};
use crate::context::{ServerConfigView, ServerContextView};
use vstd::prelude::*;

verus! {

/// The state of the whole server: what the clients share, each client by the number of its
/// socket, and the number for the next socket.
#[verifier::reject_recursive_types(W)]
pub struct ServerState<W> {
    pub ctx: ServerContextView<W>,
    pub clients: Map<u16, ConnectionView>,
    pub next_socket_idx: int,
}

/// Something that happens to the server.
#[verifier::reject_recursive_types(W)]
pub enum Happening<W> {
    /// A socket is accepted.
    Accept { writer: W },
    /// Something is read from the socket of a client.
    Receive { socket_idx: u16, event: EventView },
}

impl<W> ServerState<W> {
    /// The server before anybody has come.
    pub open spec fn initial(config: ServerConfigView) -> Self {
        ServerState {
            ctx: ServerContextView::initial(config),
            clients: Map::empty(),
            next_socket_idx: 0,
        }
    }

    /// The server once the next socket is accepted.
    pub open spec fn accepts(self, writer: W) -> Self {
        let socket_idx = self.next_socket_idx as u16;
        ServerState {
            ctx: self.ctx.accepted(socket_idx, writer),
            clients: self.clients.insert(socket_idx, ConnectionView::initial(socket_idx)),
            next_socket_idx: self.next_socket_idx + 1,
        }
    }

    /// What comes of an event that one of the clients meets with.
    pub open spec fn outcome(
        self,
        admits: spec_fn(Seq<char>) -> bool,
        socket_idx: u16,
        event: EventView,
    ) -> Outcome<W> {
        self.clients[socket_idx].handles(self.ctx, admits, event)
    }

    /// The server once one of the clients has met with an event. A client that leaves is no
    /// longer among the clients.
    pub open spec fn receives(
        self,
        admits: spec_fn(Seq<char>) -> bool,
        socket_idx: u16,
        event: EventView,
    ) -> Self {
        let outcome = self.outcome(admits, socket_idx, event);
        ServerState {
            ctx: outcome.ctx,
            clients: if outcome.open {
                self.clients.insert(socket_idx, outcome.connection)
            } else {
                self.clients.remove(socket_idx)
            },
            ..self
        }
    }

    /// The server after one more happening. A number beyond the range of socket numbers is never
    /// given out, and nothing is received from a client that is not there.
    pub open spec fn next(
        self,
        admits: spec_fn(Seq<char>) -> bool,
        happening: Happening<W>,
    ) -> Self {
        match happening {
            Happening::Accept { writer } => if self.next_socket_idx <= u16::MAX {
                self.accepts(writer)
            } else {
                self
            },
            Happening::Receive { socket_idx, event } => if self.clients.contains_key(socket_idx) {
                self.receives(admits, socket_idx, event)
            } else {
                self
            },
        }
    }

    /// The server after a whole history.
    pub open spec fn after(
        self,
        admits: spec_fn(Seq<char>) -> bool,
        history: Seq<Happening<W>>,
    ) -> Self
        decreases history.len(),
    {
        if history.len() == 0 {
            self
        } else {
            self.after(admits, history.drop_last()).next(admits, history.last())
        }
    }

    /// The clients are exactly the holders of open sockets, each under its own number, which has
    /// been given out before.
    pub open spec fn clients_hold_sockets(self) -> bool {
        &&& self.next_socket_idx >= 0
        &&& self.ctx.writers.dom() == self.clients.dom()
        &&& forall|id: u16| #[trigger]
            self.clients.contains_key(id) ==> self.clients[id].socket_idx == id && id
                < self.next_socket_idx
    }

    /// The registered lobbies are exactly those that the clients believe to host.
    pub open spec fn lobbies_have_hosts(self) -> bool {
        &&& forall|id: u16| #[trigger]
            self.clients.contains_key(id) ==> (self.clients[id].lobby_name matches Some(name)
                ==> self.ctx.lobbies.contains_key(name) && self.ctx.lobbies[name] == id)
        &&& forall|name: Seq<char>| #[trigger]
            self.ctx.lobbies.contains_key(name) ==> self.clients.contains_key(
                self.ctx.lobbies[name],
            ) && self.clients[self.ctx.lobbies[name]].lobby_name == Some(name)
    }

    /// What holds of the server at any time.
    pub open spec fn consistent(self) -> bool {
        self.clients_hold_sockets() && self.lobbies_have_hosts()
    }

    /// The rule for names admits the name of every registered lobby.
    pub open spec fn names_admitted(self, admits: spec_fn(Seq<char>) -> bool) -> bool {
        forall|name: Seq<char>| #[trigger] self.ctx.lobbies.contains_key(name) ==> admits(name)
    }
}

} // verus!
