//! What the server keeps of its promises whatever its clients do.

use crate::connection::{ConnectionView, EventView};
use crate::context::{ServerConfigView, ServerContextView};
use crate::message::{ActionView, ClientMessageView, ServerMessageView};
use crate::server::{Happening, ServerState};
use vstd::prelude::*;

verus! {

/// Accepting a socket keeps the server consistent. The number it gets is held by no other client.
pub proof fn law_accept_keeps_consistency<W>(server: ServerState<W>, writer: W)
    requires
        server.consistent(),
        server.next_socket_idx <= u16::MAX,
    ensures
        server.accepts(writer).consistent(),
        !server.clients.contains_key(server.next_socket_idx as u16),
        !server.ctx.writers.contains_key(server.next_socket_idx as u16),
{
    let idx = server.next_socket_idx as u16;
    let after = server.accepts(writer);
    assert(!server.clients.contains_key(idx));
    assert(!server.ctx.writers.dom().contains(idx));
    assert(after.ctx.writers.dom() =~= after.clients.dom());
}

/// Whatever a client's socket comes up with, the server stays consistent.
pub proof fn law_event_keeps_consistency<W>(
    server: ServerState<W>,
    admits: spec_fn(Seq<char>) -> bool,
    socket_idx: u16,
    event: EventView,
)
    requires
        server.consistent(),
        server.clients.contains_key(socket_idx),
    ensures
        server.receives(admits, socket_idx, event).consistent(),
{
    let after = server.receives(admits, socket_idx, event);
    assert(server.ctx.writers.dom().contains(socket_idx));
    assert(after.ctx.writers.dom() =~= after.clients.dom());
}

/// At any time, after any history, the server is consistent, every registered name is one that the
/// rule admits, and the settings are those that the server was started with.
pub proof fn law_always_consistent<W>(
    config: ServerConfigView,
    admits: spec_fn(Seq<char>) -> bool,
    history: Seq<Happening<W>>,
)
    ensures
        ServerState::initial(config).after(admits, history).consistent(),
        ServerState::initial(config).after(admits, history).names_admitted(admits),
        ServerState::initial(config).after(admits, history).ctx.config == config,
    decreases history.len(),
{
    if history.len() == 0 {
        let start = ServerState::<W>::initial(config);
        assert(start.ctx.writers.dom() =~= start.clients.dom());
    } else {
        let before = ServerState::initial(config).after(admits, history.drop_last());
        law_always_consistent(config, admits, history.drop_last());
        match history.last() {
            Happening::Accept { writer } => {
                if before.next_socket_idx <= u16::MAX {
                    law_accept_keeps_consistency(before, writer);
                }
            },
            Happening::Receive { socket_idx, event } => {
                if before.clients.contains_key(socket_idx) {
                    law_event_keeps_consistency(before, admits, socket_idx, event);
                }
            },
        }
    }
}

/// Whether an action tells somebody a number.
pub open spec fn tells_number(action: ActionView) -> bool {
    action matches ActionView::Send { message: ServerMessageView::TakeANumber { .. }, .. }
}

/// No event makes the server tell anybody a number.
pub proof fn law_events_tell_no_number<W>(
    ctx: ServerContextView<W>,
    client: ConnectionView,
    admits: spec_fn(Seq<char>) -> bool,
    event: EventView,
)
    ensures
        forall|i: int|
            0 <= i < client.handles(ctx, admits, event).actions.len() ==> !tells_number(
                #[trigger] client.handles(ctx, admits, event).actions[i],
            ),
{
}

/// The first thing done for a new client is to tell it its number, before anything is read from
/// it. In all that follows, whatever it sends and whatever the others do meanwhile, nobody is told
/// a number again on its account.
pub proof fn law_number_is_told_first_and_once<W>(
    client: ConnectionView,
    admits: spec_fn(Seq<char>) -> bool,
    events: Seq<(ServerContextView<W>, EventView)>,
)
    ensures
        client.session(admits, events).len() > 0,
        client.session(admits, events)[0] == (ActionView::Send {
            to: client.socket_idx,
            message: ServerMessageView::TakeANumber { id: client.socket_idx },
        }),
        forall|i: int|
            0 < i < client.session(admits, events).len() ==> !tells_number(
                #[trigger] client.session(admits, events)[i],
            ),
    decreases events.len(),
{
    if events.len() > 0 {
        let (ctx, event) = events.last();
        let rest = events.drop_last();
        let before = client.session(admits, rest);
        let now = client.after(admits, rest);
        law_number_is_told_first_and_once(client, admits, rest);
        law_events_tell_no_number(ctx, now, admits, event);
        let actions = now.handles(ctx, admits, event).actions;
        assert(client.session(admits, events) == before + actions);
        assert forall|i: int| 0 < i < client.session(admits, events).len() implies !tells_number(
            #[trigger] client.session(admits, events)[i],
        ) by {
            if i < before.len() {
                assert(client.session(admits, events)[i] == before[i]);
            } else {
                assert(client.session(admits, events)[i] == actions[i - before.len()]);
            }
        }
    }
}

/// Whether an event makes a client leave.
pub open spec fn leaving(event: EventView) -> bool {
    event is Close || event is ReadError || event is EndOfStream
}

/// Whether an event, met with in the shared state `ctx`, makes a client leave or grants it another
/// lobby.
pub open spec fn gives_up_lobby<W>(
    ctx: ServerContextView<W>,
    admits: spec_fn(Seq<char>) -> bool,
    event: EventView,
) -> bool {
    ||| leaving(event)
    ||| event matches EventView::Message {
        message: ClientMessageView::RegisterLobby { lobby_name },
    } && ctx.registration_reply(lobby_name, admits(lobby_name)) is AckRegisterLobby
}

/// A lobby lasts: through any history in which its host neither leaves nor is granted another lobby,
/// the name stands for that host, and a registration of it by anyone is refused. A registration
/// that the host is refused costs it nothing.
pub proof fn law_lobby_lasts<W>(
    server: ServerState<W>,
    admits: spec_fn(Seq<char>) -> bool,
    history: Seq<Happening<W>>,
    name: Seq<char>,
)
    requires
        server.consistent(),
        server.ctx.lobbies.contains_key(name),
        forall|i: int|
            0 <= i < history.len() ==> ((#[trigger] history[i]) matches Happening::Receive {
                socket_idx,
                event,
            } ==> socket_idx == server.ctx.lobbies[name] ==> !gives_up_lobby(
                server.after(admits, history.take(i)).ctx,
                admits,
                event,
            )),
    ensures
        ({
            let later = server.after(admits, history);
            &&& later.consistent()
            &&& later.ctx.lobbies.contains_key(name)
            &&& later.ctx.lobbies[name] == server.ctx.lobbies[name]
            &&& later.ctx.registration_reply(name, true) is ErrorLobbyExists
        }),
    decreases history.len(),
{
    if history.len() > 0 {
        let rest = history.drop_last();
        assert forall|i: int| 0 <= i < rest.len() implies ((#[trigger] rest[i]) matches
            Happening::Receive { socket_idx, event } ==> socket_idx == server.ctx.lobbies[name]
            ==> !gives_up_lobby(server.after(admits, rest.take(i)).ctx, admits, event)) by {
            assert(rest[i] == history[i]);
            assert(rest.take(i) == history.take(i));
        }
        law_lobby_lasts(server, admits, rest, name);
        let before = server.after(admits, rest);
        let host = server.ctx.lobbies[name];
        match history.last() {
            Happening::Accept { writer } => {
                if before.next_socket_idx <= u16::MAX {
                    law_accept_keeps_consistency(before, writer);
                }
            },
            Happening::Receive { socket_idx, event } => {
                assert(history[history.len() - 1] == history.last());
                assert(history.take(history.len() - 1) == rest);
                if before.clients.contains_key(socket_idx) {
                    law_event_keeps_consistency(before, admits, socket_idx, event);
                    if socket_idx != host {
                        law_others_untouched(before, admits, socket_idx, event, host);
                    }
                }
            },
        }
    }
}

/// The numbers of sockets never go down.
proof fn lemma_numbers_grow<W>(
    server: ServerState<W>,
    admits: spec_fn(Seq<char>) -> bool,
    history: Seq<Happening<W>>,
    n: int,
)
    requires
        0 <= n <= history.len(),
    ensures
        server.after(admits, history.take(n)).next_socket_idx <= server.after(
            admits,
            history,
        ).next_socket_idx,
    decreases history.len(),
{
    if n < history.len() {
        lemma_numbers_grow(server, admits, history.drop_last(), n);
        assert(history.drop_last().take(n) == history.take(n));
    } else {
        assert(history.take(n) == history);
    }
}

/// No number is given out twice, not even after its holder has left: of two sockets, the one that
/// is accepted later gets the greater number.
pub proof fn law_numbers_are_given_once<W>(
    server: ServerState<W>,
    admits: spec_fn(Seq<char>) -> bool,
    history: Seq<Happening<W>>,
    i: int,
    j: int,
)
    requires
        0 <= i < j < history.len(),
        history[i] is Accept,
        history[j] is Accept,
        server.after(admits, history.take(j)).next_socket_idx <= u16::MAX,
    ensures
        server.after(admits, history.take(i)).next_socket_idx < server.after(
            admits,
            history.take(j),
        ).next_socket_idx,
{
    let upto = history.take(j);
    lemma_numbers_grow(server, admits, upto, i + 1);
    lemma_numbers_grow(server, admits, upto, i);
    assert(upto.take(i + 1) == history.take(i + 1));
    assert(upto.take(i) == history.take(i));
    assert(history.take(i + 1).drop_last() == history.take(i));
    assert(history.take(i + 1).last() == history[i]);
}

/// No client hosts more than one lobby.
pub proof fn law_one_lobby_each<W>(server: ServerState<W>, name: Seq<char>, other: Seq<char>)
    requires
        server.consistent(),
        server.ctx.lobbies.contains_key(name),
        server.ctx.lobbies.contains_key(other),
        server.ctx.lobbies[name] == server.ctx.lobbies[other],
    ensures
        name == other,
{
}

/// An event that one client meets with leaves the other clients as they are: their sockets, the
/// lobbies they host, and who hosts those.
pub proof fn law_others_untouched<W>(
    server: ServerState<W>,
    admits: spec_fn(Seq<char>) -> bool,
    socket_idx: u16,
    event: EventView,
    other: u16,
)
    requires
        server.consistent(),
        server.clients.contains_key(socket_idx),
        server.clients.contains_key(other),
        other != socket_idx,
    ensures
        ({
            let after = server.receives(admits, socket_idx, event);
            &&& after.clients.contains_key(other)
            &&& after.clients[other] == server.clients[other]
            &&& after.ctx.writers.contains_key(other)
            &&& after.ctx.writers[other] == server.ctx.writers[other]
            &&& forall|name: Seq<char>|
                (after.ctx.lobbies.contains_key(name) && after.ctx.lobbies[name] == other) == (
                #[trigger] server.ctx.lobbies.contains_key(name) && server.ctx.lobbies[name]
                    == other)
        }),
{
    assert(server.ctx.writers.dom().contains(other));
}

/// A granted registration is what every client reads back: whoever asks for the lobbies next is
/// sent a table in which the name stands for the client that registered it.
pub proof fn law_registration_is_listed<W>(
    ctx: ServerContextView<W>,
    host: ConnectionView,
    name: Seq<char>,
    reader: ConnectionView,
    admits: spec_fn(Seq<char>) -> bool,
)
    requires
        admits(name),
        !ctx.lobbies.contains_key(name),
    ensures
        ({
            let registered = host.responds(
                ctx,
                admits,
                ClientMessageView::RegisterLobby { lobby_name: name },
            );
            let read = reader.responds(registered.ctx, admits, ClientMessageView::GetLobbies);
            &&& read.ctx == registered.ctx
            &&& read.actions == seq![
                ActionView::Send {
                    to: reader.socket_idx,
                    message: ServerMessageView::SendLobbyData { lobbies: registered.ctx.lobbies },
                },
            ]
            &&& registered.ctx.lobbies.contains_key(name)
            &&& registered.ctx.lobbies[name] == host.socket_idx
        }),
{
}

/// A registration is granted exactly where the rule admits the name and nobody has it. One that
/// is refused changes nothing, and the client is told why: a name against the rule is invalid,
/// whether it is taken or not.
pub proof fn law_registration_granted_or_refused<W>(
    ctx: ServerContextView<W>,
    client: ConnectionView,
    name: Seq<char>,
    name_is_valid: bool,
)
    ensures
        ({
            let reply = ctx.registration_reply(name, name_is_valid);
            let outcome = client.registers(ctx, name, name_is_valid);
            &&& outcome.actions == seq![
                ActionView::Send { to: client.socket_idx, message: reply },
            ]
            &&& reply is AckRegisterLobby <==> name_is_valid && !ctx.lobbies.contains_key(name)
            &&& reply is ErrorInvalidLobbyName <==> !name_is_valid
            &&& reply is ErrorLobbyExists <==> name_is_valid && ctx.lobbies.contains_key(name)
            &&& !(reply is AckRegisterLobby) ==> outcome.ctx == ctx && outcome.connection == client
        }),
{
}

/// A name belongs to the first who registers it: a second registration of the same name, by anyone,
/// is refused and changes nothing.
pub proof fn law_name_is_taken_once<W>(
    ctx: ServerContextView<W>,
    first: ConnectionView,
    second: ConnectionView,
    name: Seq<char>,
)
    requires
        !ctx.lobbies.contains_key(name),
    ensures
        ({
            let registered = first.registers(ctx, name, true);
            let again = second.registers(registered.ctx, name, true);
            &&& again.ctx == registered.ctx
            &&& again.connection == second
            &&& again.actions == seq![
                ActionView::Send {
                    to: second.socket_idx,
                    message: ServerMessageView::ErrorLobbyExists,
                },
            ]
        }),
{
}

/// A client that changes its lobby gives the old name free: it is no longer listed, and the next
/// client that asks for it gets it.
pub proof fn law_change_frees_old_name<W>(
    server: ServerState<W>,
    socket_idx: u16,
    old_name: Seq<char>,
    new_name: Seq<char>,
)
    requires
        server.consistent(),
        server.clients.contains_key(socket_idx),
        server.clients[socket_idx].lobby_name == Some(old_name),
        !server.ctx.lobbies.contains_key(new_name),
    ensures
        ({
            let changed = server.clients[socket_idx].registers(server.ctx, new_name, true);
            &&& changed.connection.lobby_name == Some(new_name)
            &&& !changed.ctx.lobbies.contains_key(old_name)
            &&& changed.ctx.registration_reply(old_name, true) is AckRegisterLobby
        }),
{
}

/// A client that leaves takes its socket and its lobby with it, and nothing else. However it
/// leaves, nothing is left to send.
pub proof fn law_leaving_cleans_up<W>(
    server: ServerState<W>,
    admits: spec_fn(Seq<char>) -> bool,
    socket_idx: u16,
    event: EventView,
)
    requires
        server.consistent(),
        server.clients.contains_key(socket_idx),
        leaving(event),
    ensures
        ({
            let outcome = server.outcome(admits, socket_idx, event);
            let after = server.receives(admits, socket_idx, event);
            &&& !outcome.open
            &&& outcome.actions == Seq::<ActionView>::empty()
            &&& after.ctx.writers == server.ctx.writers.remove(socket_idx)
            &&& !after.clients.contains_key(socket_idx)
            &&& forall|name: Seq<char>| #[trigger]
                after.ctx.lobbies.contains_key(name) ==> after.ctx.lobbies[name] != socket_idx
            &&& forall|name: Seq<char>| #[trigger]
                server.ctx.lobbies.contains_key(name) && server.ctx.lobbies[name] != socket_idx
                    ==> after.ctx.lobbies.contains_key(name) && after.ctx.lobbies[name]
                    == server.ctx.lobbies[name]
        }),
{
}

/// What a client that came to the shared state `ctx` and has met with a run of events, with nobody
/// else acting, has changed about it: the lobby it hosts has been added, if it hosts one, and
/// its socket is gone if it has left.
proof fn lemma_stay<W>(
    ctx: ServerContextView<W>,
    me: u16,
    admits: spec_fn(Seq<char>) -> bool,
    events: Seq<EventView>,
)
    ensures
        ({
            let stay = ConnectionView::initial(me).alone(ctx, admits, events);
            &&& stay.connection.socket_idx == me
            &&& stay.ctx.config == ctx.config
            &&& stay.ctx.writers == ctx.writers || stay.ctx.writers == ctx.writers.remove(me)
            &&& match stay.connection.lobby_name {
                Some(name) => !ctx.lobbies.contains_key(name) && stay.ctx.lobbies
                    == ctx.lobbies.insert(name, me),
                None => stay.ctx.lobbies == ctx.lobbies,
            }
        }),
    decreases events.len(),
{
    if events.len() > 0 {
        lemma_stay(ctx, me, admits, events.drop_last());
        let before = ConnectionView::initial(me).alone(ctx, admits, events.drop_last());
        assert(before.connection.lobbies_without(before.ctx.lobbies) =~= ctx.lobbies);
        assert(ctx.writers.remove(me).remove(me) =~= ctx.writers.remove(me));
    }
}

/// A client leaves no trace: where nobody else acts, the server after its whole stay, whatever it
/// did in between, has the lobbies and the settings that it had when the client came, and its
/// sockets but for the client's own.
pub proof fn law_stay_leaves_no_trace<W>(
    ctx: ServerContextView<W>,
    me: u16,
    admits: spec_fn(Seq<char>) -> bool,
    events: Seq<EventView>,
)
    requires
        events.len() > 0,
        leaving(events.last()),
    ensures
        ({
            let stay = ConnectionView::initial(me).alone(ctx, admits, events);
            &&& !stay.open
            &&& stay.ctx.lobbies == ctx.lobbies
            &&& stay.ctx.config == ctx.config
            &&& stay.ctx.writers == ctx.writers.remove(me)
        }),
{
    lemma_stay(ctx, me, admits, events);
    lemma_stay(ctx, me, admits, events.drop_last());
    assert(ctx.writers.remove(me).remove(me) =~= ctx.writers.remove(me));
}

/// What a client sends to another is passed on to the other as it is, under the number of the client
/// that sent it, and then acknowledged to that client. Nothing else happens.
pub proof fn law_relay<W>(
    ctx: ServerContextView<W>,
    sender: ConnectionView,
    admits: spec_fn(Seq<char>) -> bool,
    message: ClientMessageView,
)
    ensures
        ({
            let outcome = sender.responds(ctx, admits, message);
            let from = sender.socket_idx;
            let relayed = match message {
                ClientMessageView::SendOffer { to, offer } => Some(
                    (
                        to,
                        ServerMessageView::ReceiveOffer { from, offer },
                        ServerMessageView::AckSendOffer,
                    ),
                ),
                ClientMessageView::SendResponse { to, response } => Some(
                    (
                        to,
                        ServerMessageView::ReceiveResponse { from, response },
                        ServerMessageView::AckSendResponse,
                    ),
                ),
                ClientMessageView::SendIce { to, ice } => Some(
                    (
                        to,
                        ServerMessageView::ReceiveIce { from, ice },
                        ServerMessageView::AckSendIce,
                    ),
                ),
                _ => None,
            };
            relayed matches Some((to, passed_on, acknowledgement)) ==> {
                &&& outcome.ctx == ctx
                &&& outcome.connection == sender
                &&& outcome.open
                &&& outcome.actions == seq![
                    ActionView::Send { to, message: passed_on },
                    ActionView::Send { to: from, message: acknowledgement },
                ]
            }
        }),
{
}

/// The number that a request is addressed to, where it is one to pass on.
pub open spec fn addressee(event: EventView) -> Option<u16> {
    match event {
        EventView::Message { message: ClientMessageView::SendOffer { to, .. } } => Some(to),
        EventView::Message { message: ClientMessageView::SendResponse { to, .. } } => Some(to),
        EventView::Message { message: ClientMessageView::SendIce { to, .. } } => Some(to),
        _ => None,
    }
}

/// Everything there is to send goes to an open socket, unless a client addresses somebody who is
/// not there.
pub proof fn law_messages_have_receivers<W>(
    server: ServerState<W>,
    admits: spec_fn(Seq<char>) -> bool,
    socket_idx: u16,
    event: EventView,
)
    requires
        server.consistent(),
        server.clients.contains_key(socket_idx),
    ensures
        ({
            let outcome = server.outcome(admits, socket_idx, event);
            let all_received = forall|i: int|
                0 <= i < outcome.actions.len() ==> ((#[trigger] outcome.actions[i]) matches
                    ActionView::Send { to, .. } ==> outcome.ctx.writers.contains_key(to));
            all_received <==> (addressee(event) matches Some(to) ==> server.ctx.writers.contains_key(
                to,
            ))
        }),
{
    let outcome = server.outcome(admits, socket_idx, event);
    assert(server.ctx.writers.dom().contains(socket_idx));
    if let Some(to) = addressee(event) {
        assert(outcome.actions[0] matches ActionView::Send { to: first, .. } && first == to);
    }
}

/// Every text is answered: the last thing a client is due for a text is a message to itself,
/// unless the text only asks for an entry in the log, which nobody is told of.
pub proof fn law_every_text_is_answered<W>(
    ctx: ServerContextView<W>,
    client: ConnectionView,
    admits: spec_fn(Seq<char>) -> bool,
    event: EventView,
)
    requires
        event is Message || event is ParseError,
    ensures
        ({
            let outcome = client.handles(ctx, admits, event);
            &&& outcome.open
            &&& match event {
                EventView::Message { message: ClientMessageView::DebugPrint { data } } => {
                    outcome.actions == seq![ActionView::Print { from: client.socket_idx, data }]
                },
                _ => {
                    &&& outcome.actions.len() > 0
                    &&& outcome.actions.last() matches ActionView::Send { to, .. }
                    &&& to == client.socket_idx
                },
            }
        }),
{
}

/// Only leaving and a granted registration change anything. A text that holds no request is answered with
/// what is wrong with it.
pub proof fn law_other_events_change_nothing<W>(
    ctx: ServerContextView<W>,
    client: ConnectionView,
    admits: spec_fn(Seq<char>) -> bool,
    event: EventView,
)
    requires
        !gives_up_lobby(ctx, admits, event),
    ensures
        ({
            let outcome = client.handles(ctx, admits, event);
            &&& outcome.open
            &&& outcome.ctx == ctx
            &&& outcome.connection == client
            &&& event matches EventView::ParseError { msg } ==> outcome.actions == seq![
                ActionView::Send {
                    to: client.socket_idx,
                    message: ServerMessageView::ErrorParse { msg },
                },
            ]
        }),
{
}

} // verus!
