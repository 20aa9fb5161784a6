use lobby_server::connection::{Connection, Event, Step};
use lobby_server::context::{next_socket_idx, ServerConfig, ServerContext};
use lobby_server::lobby_names::LobbyNames;
use lobby_server::lobby_regex::{LobbyRegex, PatternError};
use lobby_server::message::{Action, ClientMessage, IceCandidate, ServerMessage};
use serde_json::Value;

type Context = ServerContext<&'static str>;

fn context(pattern: &str) -> Context {
    ServerContext::new(ServerConfig {
        default_port: 9081,
        username_regex: pattern.to_string(),
    })
}

fn rule() -> LobbyRegex {
    LobbyRegex::new("^[a-z]{1,8}$").unwrap_or_else(|_| panic!("the pattern compiles"))
}

fn send(ctx: &mut Context, client: &mut Connection, message: ClientMessage) -> Vec<Action> {
    let step: Step = client.handle_event(ctx, &rule(), Event::Message { message });
    assert!(step.open);
    step.actions
}

fn register(ctx: &mut Context, client: &mut Connection, name: &str) -> ServerMessage {
    let mut actions = send(
        ctx,
        client,
        ClientMessage::RegisterLobby { lobby_name: name.to_string() },
    );
    assert_eq!(actions.len(), 1);
    match actions.pop() {
        Some(Action::Send { to, message }) => {
            assert_eq!(to, client.socket_idx);
            message
        }
        _ => panic!("a registration is answered"),
    }
}

fn listed(names: &LobbyNames) -> Vec<(String, u16)> {
    let mut pairs = names.entries().clone();
    pairs.sort();
    pairs
}

fn read_lobbies(ctx: &mut Context, client: &mut Connection) -> Vec<(String, u16)> {
    let actions = send(ctx, client, ClientMessage::GetLobbies);
    assert_eq!(actions.len(), 1);
    match &actions[0] {
        Action::Send { to, message: ServerMessage::SendLobbyData { lobbies } } => {
            assert_eq!(*to, client.socket_idx);
            listed(lobbies)
        }
        _ => panic!("the lobbies are sent"),
    }
}

fn pair(name: &str, socket_idx: u16) -> (String, u16) {
    (name.to_string(), socket_idx)
}

#[test]
fn new_context_is_empty() {
    let ctx = context("x");
    assert_eq!(ctx.config.default_port, 9081);
    assert_eq!(ctx.config.username_regex, "x");
    assert!(ctx.writers.is_empty());
    assert!(ctx.lobby_names.entries().is_empty());
}

#[test]
fn new_client_is_told_its_number() {
    let mut ctx = context("^[a-z]+$");
    let client = ctx.accept(7, "seven");
    assert_eq!(client.socket_idx, 7);
    assert_eq!(client.lobby_name, None);
    let (rule, greeting) = client.start(&ctx).unwrap_or_else(|_| panic!("the pattern compiles"));
    assert!(matches!(
        greeting,
        Action::Send { to: 7, message: ServerMessage::TakeANumber { id: 7 } }
    ));
    assert!(rule.is_match("toad"));
    assert!(!rule.is_match("Toad"));
    assert_eq!(ctx.writer_mut(7).map(|w| *w), Some("seven"));
}

#[test]
fn numbers_follow_each_other() {
    assert_eq!(next_socket_idx(0), 1);
    assert_eq!(next_socket_idx(65534), 65535);
}

#[test]
fn client_is_not_greeted_under_a_rule_that_does_not_compile() {
    let mut ctx = context("foo(bar");
    let client = ctx.accept(0, "zero");
    assert!(matches!(client.start(&ctx), Err(PatternError::Syntax)));
    let mut ctx = context(r"\w{1000}");
    let client = ctx.accept(0, "zero");
    assert!(matches!(client.start(&ctx), Err(PatternError::TooBig)));
}

#[test]
fn greeting_follows_the_compiled_rule() {
    let client = Connection::new(5);
    let (rule, greeting) =
        client.greet(Ok(rule())).unwrap_or_else(|_| panic!("a compiled rule is greeted"));
    assert!(rule.is_match("toad"));
    assert!(!rule.is_match("TOAD"));
    assert!(matches!(
        greeting,
        Action::Send { to: 5, message: ServerMessage::TakeANumber { id: 5 } }
    ));
    assert!(matches!(client.greet(Err(PatternError::Syntax)), Err(PatternError::Syntax)));
    assert!(matches!(client.greet(Err(PatternError::TooBig)), Err(PatternError::TooBig)));
}

#[test]
fn number_is_told_once() {
    let mut ctx = context("^[a-z]+$");
    let mut client = ctx.accept(2, "two");
    let (rule, greeting) = client.start(&ctx).unwrap_or_else(|_| panic!("the pattern compiles"));
    let mut actions = vec![greeting];
    for event in [
        Event::Message { message: ClientMessage::GetLobbies },
        Event::Message { message: ClientMessage::RegisterLobby { lobby_name: "a".to_string() } },
        Event::Message { message: ClientMessage::RegisterLobby { lobby_name: "a".to_string() } },
        Event::Message { message: ClientMessage::SendOffer { to: 2, offer: "o".to_string() } },
        Event::Message { message: ClientMessage::DebugPrint { data: Value::Null } },
        Event::ParseError { msg: "m".to_string() },
        Event::Other,
        Event::Close,
    ] {
        actions.append(&mut client.handle_event(&mut ctx, &rule, event).actions);
    }
    let told: Vec<usize> = (0..actions.len())
        .filter(|i| {
            matches!(actions[*i], Action::Send { message: ServerMessage::TakeANumber { .. }, .. })
        })
        .collect();
    assert_eq!(told, vec![0]);
}

#[test]
fn rule_is_searched_for_anywhere_in_a_name() {
    let rule = LobbyRegex::new("b+").unwrap_or_else(|_| panic!("the pattern compiles"));
    assert!(rule.is_match("abba"));
    assert!(!rule.is_match("acca"));
    assert!(!rule.is_match(""));
}

#[test]
fn writers_are_found_by_number() {
    let mut ctx = context("x");
    ctx.accept(0, "zero");
    ctx.accept(1, "one");
    if let Some(writer) = ctx.writer_mut(1) {
        *writer = "uno";
    }
    assert_eq!(ctx.writers[&0], "zero");
    assert_eq!(ctx.writers[&1], "uno");
    assert!(ctx.writer_mut(2).is_none());
}

#[test]
fn registration_is_listed() {
    let mut ctx = context("x");
    let mut a = ctx.accept(0, "a");
    let mut b = ctx.accept(1, "b");
    assert!(read_lobbies(&mut ctx, &mut b).is_empty());
    assert!(matches!(register(&mut ctx, &mut a, "pond"), ServerMessage::AckRegisterLobby));
    assert_eq!(a.lobby_name, Some("pond".to_string()));
    assert_eq!(read_lobbies(&mut ctx, &mut b), vec![pair("pond", 0)]);
    assert_eq!(read_lobbies(&mut ctx, &mut a), vec![pair("pond", 0)]);
}

#[test]
fn invalid_name_is_refused() {
    let mut ctx = context("x");
    let mut a = ctx.accept(0, "a");
    assert!(matches!(register(&mut ctx, &mut a, "Pond!"), ServerMessage::ErrorInvalidLobbyName));
    assert!(matches!(register(&mut ctx, &mut a, ""), ServerMessage::ErrorInvalidLobbyName));
    assert_eq!(a.lobby_name, None);
    assert!(read_lobbies(&mut ctx, &mut a).is_empty());
}

#[test]
fn taken_name_is_refused_even_to_its_host() {
    let mut ctx = context("x");
    let mut a = ctx.accept(0, "a");
    let mut b = ctx.accept(1, "b");
    register(&mut ctx, &mut a, "pond");
    register(&mut ctx, &mut b, "lake");
    assert!(matches!(register(&mut ctx, &mut b, "pond"), ServerMessage::ErrorLobbyExists));
    assert!(matches!(register(&mut ctx, &mut a, "pond"), ServerMessage::ErrorLobbyExists));
    assert_eq!(b.lobby_name, Some("lake".to_string()));
    assert_eq!(read_lobbies(&mut ctx, &mut a), vec![pair("lake", 1), pair("pond", 0)]);
}

#[test]
fn invalid_is_said_before_taken() {
    let mut ctx = context("x");
    let mut a = ctx.accept(0, "a");
    let mut b = ctx.accept(1, "b");
    let name = "Pond".to_string();
    assert!(matches!(
        a.register_lobby(&mut ctx, name.clone(), true),
        ServerMessage::AckRegisterLobby
    ));
    assert!(matches!(
        b.register_lobby(&mut ctx, name.clone(), false),
        ServerMessage::ErrorInvalidLobbyName
    ));
    assert!(matches!(
        b.register_lobby(&mut ctx, name, true),
        ServerMessage::ErrorLobbyExists
    ));
}

#[test]
fn changing_lobbies_frees_the_old_name() {
    let mut ctx = context("x");
    let mut a = ctx.accept(0, "a");
    let mut b = ctx.accept(1, "b");
    register(&mut ctx, &mut a, "pond");
    assert!(matches!(register(&mut ctx, &mut a, "lake"), ServerMessage::AckRegisterLobby));
    assert_eq!(read_lobbies(&mut ctx, &mut b), vec![pair("lake", 0)]);
    assert!(matches!(register(&mut ctx, &mut b, "pond"), ServerMessage::AckRegisterLobby));
    assert_eq!(read_lobbies(&mut ctx, &mut b), vec![pair("lake", 0), pair("pond", 1)]);
}

#[test]
fn leaving_gives_up_socket_and_lobby() {
    for event in [Event::Close, Event::ReadError, Event::EndOfStream] {
        let mut ctx = context("x");
        let mut a = ctx.accept(0, "a");
        let mut b = ctx.accept(1, "b");
        register(&mut ctx, &mut a, "pond");
        register(&mut ctx, &mut b, "lake");
        let step = a.handle_event(&mut ctx, &rule(), event);
        assert!(!step.open);
        assert!(step.actions.is_empty());
        assert!(ctx.writer_mut(0).is_none());
        assert_eq!(ctx.writer_mut(1).map(|w| *w), Some("b"));
        assert_eq!(read_lobbies(&mut ctx, &mut b), vec![pair("lake", 1)]);
    }
}

#[test]
fn leaving_without_a_lobby_leaves_the_lobbies_alone() {
    let mut ctx = context("x");
    let mut a = ctx.accept(0, "a");
    let mut b = ctx.accept(1, "b");
    register(&mut ctx, &mut b, "lake");
    a.close(&mut ctx);
    assert!(ctx.writer_mut(0).is_none());
    assert_eq!(read_lobbies(&mut ctx, &mut b), vec![pair("lake", 1)]);
}

#[test]
fn offers_are_passed_on_and_acknowledged() {
    let mut ctx = context("x");
    let mut a = ctx.accept(3, "a");
    ctx.accept(4, "b");
    let actions = send(
        &mut ctx,
        &mut a,
        ClientMessage::SendOffer { to: 4, offer: "offer".to_string() },
    );
    assert_eq!(actions.len(), 2);
    assert!(matches!(
        &actions[0],
        Action::Send { to: 4, message: ServerMessage::ReceiveOffer { from: 3, offer } }
            if offer == "offer"
    ));
    assert!(matches!(
        &actions[1],
        Action::Send { to: 3, message: ServerMessage::AckSendOffer }
    ));
}

#[test]
fn responses_are_passed_on_and_acknowledged() {
    let mut ctx = context("x");
    let mut a = ctx.accept(3, "a");
    let actions = send(
        &mut ctx,
        &mut a,
        ClientMessage::SendResponse { to: 9, response: "fine".to_string() },
    );
    assert_eq!(actions.len(), 2);
    assert!(matches!(
        &actions[0],
        Action::Send { to: 9, message: ServerMessage::ReceiveResponse { from: 3, response } }
            if response == "fine"
    ));
    assert!(matches!(
        &actions[1],
        Action::Send { to: 3, message: ServerMessage::AckSendResponse }
    ));
    // Nobody has that number.
    assert!(ctx.writer_mut(9).is_none());
}

#[test]
fn candidates_are_passed_on_and_acknowledged() {
    let mut ctx = context("x");
    let mut a = ctx.accept(3, "a");
    let ice = IceCandidate { mid: "m".to_string(), index: 2, sdp: "s".to_string() };
    let actions = send(&mut ctx, &mut a, ClientMessage::SendIce { to: 3, ice });
    assert_eq!(actions.len(), 2);
    match &actions[0] {
        Action::Send { to: 3, message: ServerMessage::ReceiveIce { from: 3, ice } } => {
            let same = IceCandidate { mid: "m".to_string(), index: 2, sdp: "s".to_string() };
            assert_eq!(*ice, same);
        }
        _ => panic!("the candidate is passed on"),
    }
    assert!(matches!(
        &actions[1],
        Action::Send { to: 3, message: ServerMessage::AckSendIce }
    ));
}

#[test]
fn debug_data_is_printed_only() {
    let mut ctx = context("x");
    let mut a = ctx.accept(3, "a");
    let data = Value::String("hello".to_string());
    let actions = send(&mut ctx, &mut a, ClientMessage::DebugPrint { data: data.clone() });
    assert_eq!(actions.len(), 1);
    match &actions[0] {
        Action::Print { from, data: printed } => {
            assert_eq!(*from, 3);
            assert_eq!(*printed, data);
        }
        _ => panic!("the data is printed"),
    }
}

#[test]
fn unreadable_text_is_answered() {
    let mut ctx = context("x");
    let mut a = ctx.accept(3, "a");
    let event = Event::ParseError { msg: "expected value".to_string() };
    let step = a.handle_event(&mut ctx, &rule(), event);
    assert!(step.open);
    assert_eq!(step.actions.len(), 1);
    assert!(matches!(
        &step.actions[0],
        Action::Send { to: 3, message: ServerMessage::ErrorParse { msg } } if msg == "expected value"
    ));
}

#[test]
fn other_frames_are_ignored() {
    let mut ctx = context("x");
    let mut a = ctx.accept(3, "a");
    register(&mut ctx, &mut a, "pond");
    let step = a.handle_event(&mut ctx, &rule(), Event::Other);
    assert!(step.open);
    assert!(step.actions.is_empty());
    assert_eq!(a.lobby_name, Some("pond".to_string()));
    assert_eq!(read_lobbies(&mut ctx, &mut a), vec![pair("pond", 3)]);
}

#[test]
fn lobby_lasts_while_its_host_stays() {
    let mut ctx = context("x");
    let mut a = ctx.accept(0, "a");
    let mut b = ctx.accept(1, "b");
    register(&mut ctx, &mut a, "pond");
    register(&mut ctx, &mut b, "lake");
    send(&mut ctx, &mut a, ClientMessage::SendOffer { to: 1, offer: "o".to_string() });
    assert!(matches!(register(&mut ctx, &mut a, "lake"), ServerMessage::ErrorLobbyExists));
    assert!(matches!(register(&mut ctx, &mut a, "La-ke"), ServerMessage::ErrorInvalidLobbyName));
    b.handle_event(&mut ctx, &rule(), Event::Close);
    let mut c = ctx.accept(2, "c");
    assert_eq!(read_lobbies(&mut ctx, &mut c), vec![pair("pond", 0)]);
    assert!(matches!(register(&mut ctx, &mut c, "pond"), ServerMessage::ErrorLobbyExists));
    assert!(matches!(register(&mut ctx, &mut c, "lake"), ServerMessage::AckRegisterLobby));
}

#[test]
fn stay_leaves_no_trace() {
    let mut ctx = context("x");
    let mut host = ctx.accept(0, "host");
    register(&mut ctx, &mut host, "pond");
    let mut guest = ctx.accept(1, "guest");
    register(&mut ctx, &mut guest, "lake");
    register(&mut ctx, &mut guest, "pond");
    register(&mut ctx, &mut guest, "sea");
    send(&mut ctx, &mut guest, ClientMessage::SendOffer { to: 0, offer: "o".to_string() });
    register(&mut ctx, &mut guest, "lake");
    guest.handle_event(&mut ctx, &rule(), Event::EndOfStream);
    assert_eq!(listed(&ctx.lobby_names), vec![pair("pond", 0)]);
    assert_eq!(ctx.writers.len(), 1);
    assert_eq!(ctx.writers[&0], "host");
    assert_eq!(ctx.config.username_regex, "x");
}

#[test]
fn lobby_names_are_a_map() {
    let mut names = LobbyNames::new();
    names.insert("a".to_string(), 1);
    names.insert("b".to_string(), 2);
    names.insert("a".to_string(), 3);
    assert_eq!(listed(&names), vec![pair("a", 3), pair("b", 2)]);
    assert!(names.contains_key(&"a".to_string()));
    assert!(!names.contains_key(&"c".to_string()));
    let copy = names.copy();
    names.remove(&"a".to_string());
    names.remove(&"c".to_string());
    assert_eq!(listed(&names), vec![pair("b", 2)]);
    assert_eq!(listed(&copy), vec![pair("a", 3), pair("b", 2)]);
}

#[test]
fn server_stays_consistent_through_a_long_history() {
    let mut ctx = context("x");
    let mut clients: Vec<Connection> = Vec::new();
    let names = ["a", "b", "c", "d", "E"];
    let mut next: u16 = 0;
    for round in 0..200usize {
        match round % 7 {
            0 | 3 => {
                clients.push(ctx.accept(next, "w"));
                next = next_socket_idx(next);
            }
            6 => {
                let at = round * 5 % clients.len();
                clients.remove(at).close(&mut ctx);
            }
            _ => {
                let at = round * 3 % clients.len();
                register(&mut ctx, &mut clients[at], names[round * 11 % names.len()]);
            }
        }
        let mut hosted: Vec<(String, u16)> = Vec::new();
        for client in &clients {
            assert!(ctx.writers.contains_key(&client.socket_idx));
            if let Some(name) = &client.lobby_name {
                hosted.push((name.clone(), client.socket_idx));
            }
        }
        hosted.sort();
        assert_eq!(ctx.writers.len(), clients.len());
        assert_eq!(listed(&ctx.lobby_names), hosted);
        assert!(!ctx.lobby_names.contains_key(&"E".to_string()));
    }
}
