//! What each exchange with a client comes to, message by message.

use crate::connection::{ConnectionView, EventView};
use crate::context::ServerContextView;
use crate::message::{ActionView, ClientMessageView, IceCandidateView, ServerMessageView};
use vstd::prelude::*;

verus! {

/// A new client is told the number of its own socket, and nobody else is told anything. So clients
/// with different numbers are told different numbers.
pub proof fn law_greeting_tells_own_number(client: ConnectionView, other: ConnectionView)
    ensures
        client.greeting() == (ActionView::Send {
            to: client.socket_idx,
            message: ServerMessageView::TakeANumber { id: client.socket_idx },
        }),
        client.socket_idx != other.socket_idx ==> client.greeting()->message
            != other.greeting()->message,
{
}

/// A client whose socket is taken in has that socket's number and hosts nothing. All that changes
/// about the server is that it can write to that socket.
pub proof fn law_accepted_client<W>(ctx: ServerContextView<W>, socket_idx: u16, writer: W)
    ensures
        ConnectionView::initial(socket_idx).socket_idx == socket_idx,
        ConnectionView::initial(socket_idx).lobby_name is None,
        ctx.accepted(socket_idx, writer).writers == ctx.writers.insert(socket_idx, writer),
        ctx.accepted(socket_idx, writer).lobbies == ctx.lobbies,
        ctx.accepted(socket_idx, writer).config == ctx.config,
        ServerContextView::<W>::initial(ctx.config).writers == Map::<u16, W>::empty(),
        ServerContextView::<W>::initial(ctx.config).lobbies == Map::<Seq<char>, u16>::empty(),
        ServerContextView::<W>::initial(ctx.config).config == ctx.config,
{
}

/// A registration is answered with one message, to the client that asked for it: that the name is
/// invalid exactly where the rule does not admit it, that the lobby exists exactly where the rule
/// admits the name and it is registered, and an acknowledgement exactly where the rule admits the
/// name and it is free. The acknowledgement is sent exactly where the table changes.
pub proof fn law_registration_is_answered<W>(
    ctx: ServerContextView<W>,
    client: ConnectionView,
    admits: spec_fn(Seq<char>) -> bool,
    name: Seq<char>,
)
    ensures
        ({
            let event = EventView::Message {
                message: ClientMessageView::RegisterLobby { lobby_name: name },
            };
            let outcome = client.handles(ctx, admits, event);
            let invalid = seq![
                ActionView::Send {
                    to: client.socket_idx,
                    message: ServerMessageView::ErrorInvalidLobbyName,
                },
            ];
            let taken = seq![
                ActionView::Send {
                    to: client.socket_idx,
                    message: ServerMessageView::ErrorLobbyExists,
                },
            ];
            let granted = seq![
                ActionView::Send {
                    to: client.socket_idx,
                    message: ServerMessageView::AckRegisterLobby,
                },
            ];
            &&& outcome.open
            &&& outcome.actions.len() == 1
            &&& outcome.actions == invalid <==> !admits(name)
            &&& outcome.actions == taken <==> admits(name) && ctx.lobbies.contains_key(name)
            &&& outcome.actions == granted <==> admits(name) && !ctx.lobbies.contains_key(name)
            &&& outcome.actions == granted <==> outcome.ctx.lobbies != ctx.lobbies
        }),
{
    let event = EventView::Message {
        message: ClientMessageView::RegisterLobby { lobby_name: name },
    };
    let outcome = client.handles(ctx, admits, event);
    let invalid = ActionView::Send {
        to: client.socket_idx,
        message: ServerMessageView::ErrorInvalidLobbyName,
    };
    let taken = ActionView::Send {
        to: client.socket_idx,
        message: ServerMessageView::ErrorLobbyExists,
    };
    let granted = ActionView::Send {
        to: client.socket_idx,
        message: ServerMessageView::AckRegisterLobby,
    };
    assert(seq![invalid][0] == invalid && seq![taken][0] == taken && seq![granted][0] == granted);
    if admits(name) && !ctx.lobbies.contains_key(name) {
        assert(outcome.ctx.lobbies.contains_key(name));
    }
}

/// Where the rule admits a name and it is free, the client that registers it hosts that lobby and
/// no longer the one it hosted before. Every other lobby stays with its host. Sockets and settings
/// stay as they are.
pub proof fn law_granted_registration_takes_effect<W>(
    ctx: ServerContextView<W>,
    client: ConnectionView,
    admits: spec_fn(Seq<char>) -> bool,
    name: Seq<char>,
    other: Seq<char>,
)
    requires
        admits(name),
        !ctx.lobbies.contains_key(name),
        other != name,
    ensures
        ({
            let event = EventView::Message {
                message: ClientMessageView::RegisterLobby { lobby_name: name },
            };
            let outcome = client.handles(ctx, admits, event);
            &&& outcome.connection.socket_idx == client.socket_idx
            &&& outcome.connection.lobby_name == Some(name)
            &&& outcome.ctx.lobbies.contains_key(name)
            &&& outcome.ctx.lobbies[name] == client.socket_idx
            &&& outcome.ctx.lobbies.contains_key(other) <==> ctx.lobbies.contains_key(other)
                && client.lobby_name != Some(other)
            &&& outcome.ctx.lobbies.contains_key(other) ==> outcome.ctx.lobbies[other]
                == ctx.lobbies[other]
            &&& outcome.ctx.writers == ctx.writers
            &&& outcome.ctx.config == ctx.config
        }),
{
}

/// Where the rule does not admit a name, or it is taken, nothing changes.
pub proof fn law_refused_registration_has_no_effect<W>(
    ctx: ServerContextView<W>,
    client: ConnectionView,
    admits: spec_fn(Seq<char>) -> bool,
    name: Seq<char>,
)
    requires
        !admits(name) || ctx.lobbies.contains_key(name),
    ensures
        ({
            let event = EventView::Message {
                message: ClientMessageView::RegisterLobby { lobby_name: name },
            };
            let outcome = client.handles(ctx, admits, event);
            outcome.ctx == ctx && outcome.connection == client
        }),
{
}

/// Registering by the result of the rule is registering under a rule with that result: the same
/// answer, the same table, the same client.
pub proof fn law_registration_goes_by_the_rule<W>(
    ctx: ServerContextView<W>,
    client: ConnectionView,
    admits: spec_fn(Seq<char>) -> bool,
    name: Seq<char>,
)
    ensures
        ({
            let event = EventView::Message {
                message: ClientMessageView::RegisterLobby { lobby_name: name },
            };
            let outcome = client.handles(ctx, admits, event);
            let registered = client.registers(ctx, name, admits(name));
            &&& registered == outcome
            &&& registered.actions == seq![
                ActionView::Send {
                    to: client.socket_idx,
                    message: ctx.registration_reply(name, admits(name)),
                },
            ]
        }),
{
}

/// A client that asks for the lobbies is sent the whole table, whoever it is and whatever it hosts,
/// and nothing else happens.
pub proof fn law_lobbies_are_sent_whole<W>(
    ctx: ServerContextView<W>,
    reader: ConnectionView,
    admits: spec_fn(Seq<char>) -> bool,
)
    ensures
        ({
            let event = EventView::Message { message: ClientMessageView::GetLobbies };
            let outcome = reader.handles(ctx, admits, event);
            &&& outcome.actions == seq![
                ActionView::Send {
                    to: reader.socket_idx,
                    message: ServerMessageView::SendLobbyData { lobbies: ctx.lobbies },
                },
            ]
            &&& outcome.open
            &&& outcome.ctx == ctx
            &&& outcome.connection == reader
        }),
{
}

/// An offer goes to the client it is addressed to, whether or not that client is there, under the
/// number of the sender. Then the sender gets its acknowledgement. Nothing else happens.
pub proof fn law_offer_is_passed_on<W>(
    ctx: ServerContextView<W>,
    sender: ConnectionView,
    admits: spec_fn(Seq<char>) -> bool,
    to: u16,
    offer: Seq<char>,
)
    ensures
        ({
            let event = EventView::Message { message: ClientMessageView::SendOffer { to, offer } };
            let outcome = sender.handles(ctx, admits, event);
            &&& outcome.actions == seq![
                ActionView::Send {
                    to,
                    message: ServerMessageView::ReceiveOffer { from: sender.socket_idx, offer },
                },
                ActionView::Send {
                    to: sender.socket_idx,
                    message: ServerMessageView::AckSendOffer,
                },
            ]
            &&& outcome.open
            &&& outcome.ctx == ctx
            &&& outcome.connection == sender
        }),
{
}

/// A response goes to the client it is addressed to, whether or not that client is there, under the
/// number of the sender. Then the sender gets its acknowledgement. Nothing else happens.
pub proof fn law_response_is_passed_on<W>(
    ctx: ServerContextView<W>,
    sender: ConnectionView,
    admits: spec_fn(Seq<char>) -> bool,
    to: u16,
    response: Seq<char>,
)
    ensures
        ({
            let event = EventView::Message {
                message: ClientMessageView::SendResponse { to, response },
            };
            let outcome = sender.handles(ctx, admits, event);
            &&& outcome.actions == seq![
                ActionView::Send {
                    to,
                    message: ServerMessageView::ReceiveResponse {
                        from: sender.socket_idx,
                        response,
                    },
                },
                ActionView::Send {
                    to: sender.socket_idx,
                    message: ServerMessageView::AckSendResponse,
                },
            ]
            &&& outcome.open
            &&& outcome.ctx == ctx
            &&& outcome.connection == sender
        }),
{
}

/// An address candidate goes to the client it is addressed to, whether or not that client is there,
/// under the number of the sender. Then the sender gets its acknowledgement. Nothing else happens.
pub proof fn law_candidate_is_passed_on<W>(
    ctx: ServerContextView<W>,
    sender: ConnectionView,
    admits: spec_fn(Seq<char>) -> bool,
    to: u16,
    ice: IceCandidateView,
)
    ensures
        ({
            let event = EventView::Message { message: ClientMessageView::SendIce { to, ice } };
            let outcome = sender.handles(ctx, admits, event);
            &&& outcome.actions == seq![
                ActionView::Send {
                    to,
                    message: ServerMessageView::ReceiveIce { from: sender.socket_idx, ice },
                },
                ActionView::Send {
                    to: sender.socket_idx,
                    message: ServerMessageView::AckSendIce,
                },
            ]
            &&& outcome.open
            &&& outcome.ctx == ctx
            &&& outcome.connection == sender
        }),
{
}

/// Debug data goes to the log under the number of the client it came from. Nobody is sent anything.
pub proof fn law_debug_data_is_logged<W>(
    ctx: ServerContextView<W>,
    client: ConnectionView,
    admits: spec_fn(Seq<char>) -> bool,
    data: serde_json::Value,
)
    ensures
        ({
            let event = EventView::Message { message: ClientMessageView::DebugPrint { data } };
            let outcome = client.handles(ctx, admits, event);
            &&& outcome.actions == seq![ActionView::Print { from: client.socket_idx, data }]
            &&& outcome.open
            &&& outcome.ctx == ctx
            &&& outcome.connection == client
        }),
{
}

/// A text that holds no request is answered, to the client that sent it, with what is wrong with
/// it. Nothing else happens.
pub proof fn law_parse_error_is_reported<W>(
    ctx: ServerContextView<W>,
    client: ConnectionView,
    admits: spec_fn(Seq<char>) -> bool,
    msg: Seq<char>,
)
    ensures
        ({
            let outcome = client.handles(ctx, admits, EventView::ParseError { msg });
            &&& outcome.actions == seq![
                ActionView::Send {
                    to: client.socket_idx,
                    message: ServerMessageView::ErrorParse { msg },
                },
            ]
            &&& outcome.open
            &&& outcome.ctx == ctx
            &&& outcome.connection == client
        }),
{
}

/// Other frames go by without any effect.
pub proof fn law_other_frames_go_by<W>(
    ctx: ServerContextView<W>,
    client: ConnectionView,
    admits: spec_fn(Seq<char>) -> bool,
)
    ensures
        ({
            let outcome = client.handles(ctx, admits, EventView::Other);
            &&& outcome.actions.len() == 0
            &&& outcome.open
            &&& outcome.ctx == ctx
            &&& outcome.connection == client
        }),
{
}

/// However a client leaves, its own socket and its own lobby are gone and every other one stays.
/// Nothing is left to do, and nothing more is read from it.
pub proof fn law_leaving_takes_own_things_only<W>(
    ctx: ServerContextView<W>,
    client: ConnectionView,
    admits: spec_fn(Seq<char>) -> bool,
    event: EventView,
    name: Seq<char>,
    other: u16,
)
    requires
        event == EventView::Close || event == EventView::ReadError || event
            == EventView::EndOfStream,
    ensures
        ({
            let outcome = client.handles(ctx, admits, event);
            &&& outcome == client.leaves(ctx)
            &&& outcome.actions.len() == 0
            &&& !outcome.open
            &&& outcome.connection.socket_idx == client.socket_idx
            &&& outcome.connection.lobby_name is None
            &&& outcome.ctx.config == ctx.config
            &&& !outcome.ctx.writers.contains_key(client.socket_idx)
            &&& other != client.socket_idx ==> (outcome.ctx.writers.contains_key(other)
                == ctx.writers.contains_key(other) && (ctx.writers.contains_key(other)
                ==> outcome.ctx.writers[other] == ctx.writers[other]))
            &&& outcome.ctx.lobbies.contains_key(name) <==> ctx.lobbies.contains_key(name)
                && client.lobby_name != Some(name)
            &&& outcome.ctx.lobbies.contains_key(name) ==> outcome.ctx.lobbies[name]
                == ctx.lobbies[name]
        }),
{
}

/// A request by itself comes to what the event of receiving it comes to.
pub proof fn law_request_is_its_event<W>(
    ctx: ServerContextView<W>,
    client: ConnectionView,
    admits: spec_fn(Seq<char>) -> bool,
    message: ClientMessageView,
)
    ensures
        client.responds(ctx, admits, message) == client.handles(
            ctx,
            admits,
            EventView::Message { message },
        ),
{
}

} // verus!
