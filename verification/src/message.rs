//! What clients ask of the server and what the server tells them.

use crate::lobby_names::LobbyNames;
use vstd::prelude::*;

verus! {

/// `serde_json::Value`, any JSON value. It is only carried through, never looked into.
#[verifier::external_type_specification]
#[verifier::external_body]
pub struct ExValue(serde_json::Value);

/// A candidate address that one peer offers another.
#[derive(Debug, PartialEq, Eq)]
pub struct IceCandidate {
    pub mid: String,
    pub index: u16,
    pub sdp: String,
}

/// A request of a client.
#[derive(Debug)]
pub enum ClientMessage {
    /// Write `data` to the server's log.
    DebugPrint { data: serde_json::Value },
    /// Host a lobby of this name, in place of the one hosted so far.
    RegisterLobby { lobby_name: String },
    /// Tell me the registered lobbies.
    GetLobbies,
    /// Pass a session offer on to the client with number `to`.
    SendOffer { to: u16, offer: String },
    /// Pass the response to an offer on to the client with number `to`.
    SendResponse { to: u16, response: String },
    /// Pass an address candidate on to the client with number `to`.
    SendIce { to: u16, ice: IceCandidate },
}

/// A message of the server to a client.
#[derive(Debug)]
pub enum ServerMessage {
    ErrorParse { msg: String },
    TakeANumber { id: u16 },
    AckRegisterLobby,
    ErrorInvalidLobbyName,
    ErrorLobbyExists,
    SendLobbyData { lobbies: LobbyNames },
    ReceiveOffer { from: u16, offer: String },
    ReceiveResponse { from: u16, response: String },
    ReceiveIce { from: u16, ice: IceCandidate },
    AckSendOffer,
    AckSendResponse,
    AckSendIce,
}

/// Something the server has to do to the outside world.
#[derive(Debug)]
pub enum Action {
    /// Send `message` to the client with number `to`.
    Send { to: u16, message: ServerMessage },
    /// Write `data`, received from the client with number `from`, to the log.
    Print { from: u16, data: serde_json::Value },
}

/// The mathematical value of an [`IceCandidate`].
pub struct IceCandidateView {
    pub mid: Seq<char>,
    pub index: u16,
    pub sdp: Seq<char>,
}

/// The mathematical value of a [`ClientMessage`].
pub enum ClientMessageView {
    DebugPrint { data: serde_json::Value },
    RegisterLobby { lobby_name: Seq<char> },
    GetLobbies,
    SendOffer { to: u16, offer: Seq<char> },
    SendResponse { to: u16, response: Seq<char> },
    SendIce { to: u16, ice: IceCandidateView },
}

/// The mathematical value of a [`ServerMessage`].
pub enum ServerMessageView {
    ErrorParse { msg: Seq<char> },
    TakeANumber { id: u16 },
    AckRegisterLobby,
    ErrorInvalidLobbyName,
    ErrorLobbyExists,
    SendLobbyData { lobbies: Map<Seq<char>, u16> },
    ReceiveOffer { from: u16, offer: Seq<char> },
    ReceiveResponse { from: u16, response: Seq<char> },
    ReceiveIce { from: u16, ice: IceCandidateView },
    AckSendOffer,
    AckSendResponse,
    AckSendIce,
}

/// The mathematical value of an [`Action`].
pub enum ActionView {
    Send { to: u16, message: ServerMessageView },
    Print { from: u16, data: serde_json::Value },
}

impl View for IceCandidate {
    type V = IceCandidateView;

    open spec fn view(&self) -> IceCandidateView {
        IceCandidateView { mid: self.mid@, index: self.index, sdp: self.sdp@ }
    }
}

impl View for ClientMessage {
    type V = ClientMessageView;

    open spec fn view(&self) -> ClientMessageView {
        match *self {
            ClientMessage::DebugPrint { data } => ClientMessageView::DebugPrint { data },
            ClientMessage::RegisterLobby { lobby_name } => ClientMessageView::RegisterLobby {
                lobby_name: lobby_name@,
            },
            ClientMessage::GetLobbies => ClientMessageView::GetLobbies,
            ClientMessage::SendOffer { to, offer } => ClientMessageView::SendOffer {
                to,
                offer: offer@,
            },
            ClientMessage::SendResponse { to, response } => ClientMessageView::SendResponse {
                to,
                response: response@,
            },
            ClientMessage::SendIce { to, ice } => ClientMessageView::SendIce { to, ice: ice@ },
        }
    }
}

impl View for ServerMessage {
    type V = ServerMessageView;

    open spec fn view(&self) -> ServerMessageView {
        match *self {
            ServerMessage::ErrorParse { msg } => ServerMessageView::ErrorParse { msg: msg@ },
            ServerMessage::TakeANumber { id } => ServerMessageView::TakeANumber { id },
            ServerMessage::AckRegisterLobby => ServerMessageView::AckRegisterLobby,
            ServerMessage::ErrorInvalidLobbyName => ServerMessageView::ErrorInvalidLobbyName,
            ServerMessage::ErrorLobbyExists => ServerMessageView::ErrorLobbyExists,
            ServerMessage::SendLobbyData { lobbies } => ServerMessageView::SendLobbyData {
                lobbies: lobbies@,
            },
            ServerMessage::ReceiveOffer { from, offer } => ServerMessageView::ReceiveOffer {
                from,
                offer: offer@,
            },
            ServerMessage::ReceiveResponse {
                from,
                response,
            } => ServerMessageView::ReceiveResponse { from, response: response@ },
            ServerMessage::ReceiveIce { from, ice } => ServerMessageView::ReceiveIce {
                from,
                ice: ice@,
            },
            ServerMessage::AckSendOffer => ServerMessageView::AckSendOffer,
            ServerMessage::AckSendResponse => ServerMessageView::AckSendResponse,
            ServerMessage::AckSendIce => ServerMessageView::AckSendIce,
        }
    }
}

impl View for Action {
    type V = ActionView;

    open spec fn view(&self) -> ActionView {
        match *self {
            Action::Send { to, message } => ActionView::Send { to, message: message@ },
            Action::Print { from, data } => ActionView::Print { from, data },
        }
    }
}

/// The value of a candidate holds each of its fields.
pub proof fn law_candidate_value(ice: IceCandidate)
    ensures
        ice@.mid == ice.mid@,
        ice@.index == ice.index,
        ice@.sdp == ice.sdp@,
{
}

/// The value of a request says which request it is and holds what it carries.
pub proof fn law_request_value(
    data: serde_json::Value,
    text: String,
    to: u16,
    ice: IceCandidate,
)
    ensures
        (ClientMessage::DebugPrint { data })@ == (ClientMessageView::DebugPrint { data }),
        (ClientMessage::RegisterLobby { lobby_name: text })@ == (ClientMessageView::RegisterLobby {
            lobby_name: text@,
        }),
        ClientMessage::GetLobbies@ == ClientMessageView::GetLobbies,
        (ClientMessage::SendOffer { to, offer: text })@ == (ClientMessageView::SendOffer {
            to,
            offer: text@,
        }),
        (ClientMessage::SendResponse { to, response: text })@ == (ClientMessageView::SendResponse {
            to,
            response: text@,
        }),
        (ClientMessage::SendIce { to, ice })@ == (ClientMessageView::SendIce { to, ice: ice@ }),
{
}

/// The value of an answer says which answer it is and holds what it carries.
pub proof fn law_answer_value(text: String, number: u16, lobbies: LobbyNames, ice: IceCandidate)
    ensures
        (ServerMessage::ErrorParse { msg: text })@ == (ServerMessageView::ErrorParse { msg: text@ }),
        (ServerMessage::TakeANumber { id: number })@ == (ServerMessageView::TakeANumber {
            id: number,
        }),
        ServerMessage::AckRegisterLobby@ == ServerMessageView::AckRegisterLobby,
        ServerMessage::ErrorInvalidLobbyName@ == ServerMessageView::ErrorInvalidLobbyName,
        ServerMessage::ErrorLobbyExists@ == ServerMessageView::ErrorLobbyExists,
        (ServerMessage::SendLobbyData { lobbies })@ == (ServerMessageView::SendLobbyData {
            lobbies: lobbies@,
        }),
        (ServerMessage::ReceiveOffer { from: number, offer: text })@ == (
        ServerMessageView::ReceiveOffer { from: number, offer: text@ }),
        (ServerMessage::ReceiveResponse { from: number, response: text })@ == (
        ServerMessageView::ReceiveResponse { from: number, response: text@ }),
        (ServerMessage::ReceiveIce { from: number, ice })@ == (ServerMessageView::ReceiveIce {
            from: number,
            ice: ice@,
        }),
        ServerMessage::AckSendOffer@ == ServerMessageView::AckSendOffer,
        ServerMessage::AckSendResponse@ == ServerMessageView::AckSendResponse,
        ServerMessage::AckSendIce@ == ServerMessageView::AckSendIce,
{
}

/// The value of an action says what to do, with whom and with what.
pub proof fn law_action_value(number: u16, message: ServerMessage, data: serde_json::Value)
    ensures
        (Action::Send { to: number, message })@ == (ActionView::Send {
            to: number,
            message: message@,
        }),
        (Action::Print { from: number, data })@ == (ActionView::Print { from: number, data }),
{
}

} // verus!
