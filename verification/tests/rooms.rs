use lobby_server::rooms::{Connection, ConnectionState, GameServer};
use lobby_server::words::{chars_of, is_white, next_word};
use std::cell::RefCell;
use std::collections::VecDeque;
use std::io::{Error, ErrorKind, Read, Result as IoResult, Write};
use std::rc::Rc;
use tungstenite::{accept, client, HandshakeError, Message};

/// One end of a wire that is held in memory.
struct Wire {
    incoming: Rc<RefCell<VecDeque<u8>>>,
    outgoing: Rc<RefCell<VecDeque<u8>>>,
}

impl Read for Wire {
    fn read(&mut self, buf: &mut [u8]) -> IoResult<usize> {
        let mut incoming = self.incoming.borrow_mut();
        if incoming.is_empty() {
            return Err(Error::from(ErrorKind::WouldBlock));
        }
        let n = buf.len().min(incoming.len());
        for slot in buf.iter_mut().take(n) {
            *slot = incoming.pop_front().unwrap();
        }
        Ok(n)
    }
}

impl Write for Wire {
    fn write(&mut self, buf: &[u8]) -> IoResult<usize> {
        self.outgoing.borrow_mut().extend(buf.iter().copied());
        Ok(buf.len())
    }

    fn flush(&mut self) -> IoResult<()> {
        Ok(())
    }
}

fn reply(message: &str) -> String {
    GameServer::handle_message(&mut Connection::new(), Some(message)).unwrap()
}

#[test]
fn test_join() {
    let up = Rc::new(RefCell::new(VecDeque::new()));
    let down = Rc::new(RefCell::new(VecDeque::new()));
    let near = Wire { incoming: down.clone(), outgoing: up.clone() };
    let far = Wire { incoming: up, outgoing: down };

    // Connect to the server
    let waiting = match client("ws://localhost:9081", near) {
        Err(HandshakeError::Interrupted(waiting)) => waiting,
        _ => panic!("the server has not answered yet"),
    };
    let mut server = accept(far).unwrap();
    let (mut socket, response) = waiting.handshake().unwrap();

    // Expect a websocket upgrade response
    assert_eq!(response.status().as_u16(), 101);

    // Request a random lobby
    socket.send(Message::Text("H: ".to_string())).unwrap();
    let mut connection = Connection::new();
    let message = server.read().unwrap().to_string();
    let answer = GameServer::handle_message(&mut connection, Some(message.as_str())).unwrap();
    server.send(Message::Text(answer)).unwrap();

    // Did we get a lobby code back?
    assert_eq!("H: Obama", socket.read().unwrap().to_string());
}

#[test]
fn host_gets_the_code_asked_for() {
    assert_eq!(reply("H: toad"), "H: toad\n");
    assert_eq!(reply("\tH:\u{3000}toad more words"), "H: toad\n");
    assert_eq!(reply("H: H:"), "H: H:\n");
    assert_eq!(reply("H: \u{e9}t\u{e9}"), "H: \u{e9}t\u{e9}\n");
}

#[test]
fn host_without_a_code_gets_one() {
    assert_eq!(GameServer::generate_room_code(), "Obama");
    assert_eq!(reply("H:"), "H: Obama");
    assert_eq!(reply(" \n H: \u{a0}\r\n"), "H: Obama");
}

#[test]
fn other_requests_are_refused() {
    assert_eq!(reply("h: toad"), "E: Invalid opcode or syntax\n");
    assert_eq!(reply("H:toad"), "E: Invalid opcode or syntax\n");
    assert_eq!(reply("H"), "E: Invalid opcode or syntax\n");
    assert_eq!(reply("J: toad"), "E: Invalid opcode or syntax\n");
    assert_eq!(reply("toad H:"), "E: Invalid opcode or syntax\n");
}

#[test]
fn blank_messages_are_refused() {
    assert_eq!(reply(""), "E: Message did not contain whitespace\n");
    assert_eq!(reply(" \t\u{2003}\n"), "E: Message did not contain whitespace\n");
}

#[test]
fn unread_messages_get_no_reply_and_connection_stays() {
    let mut connection = Connection::new();
    assert_eq!(GameServer::handle_message(&mut connection, None), None);
    assert!(GameServer::handle_message(&mut connection, Some("H: a")).is_some());
    assert_eq!(connection.peer_name, "stoad");
    assert_eq!(connection.state, ConnectionState::DUMMY);
}

#[test]
fn game_server_keeps_its_settings() {
    let server = GameServer::new(9081, vec!["pond".to_string()]);
    assert_eq!(server.default_port, 9081);
    assert_eq!(server.room_names, vec!["pond".to_string()]);
    assert_eq!(server.listen_port(None), Some(9081));
    assert_eq!(server.listen_port(Some("8000")), Some(8000));
    assert_eq!(server.listen_port(Some("lots")), None);
}

#[test]
fn white_space_is_that_of_the_standard_library() {
    for n in 0..=0x10ffffu32 {
        if let Some(c) = char::from_u32(n) {
            assert_eq!(is_white(c), c.is_whitespace(), "{:x}", n);
        }
    }
}

#[test]
fn words_are_those_of_the_standard_library() {
    for text in ["", " ", "a", "  ab\tc ", "\u{a0}x\u{85}y\u{200b}z", "H: Obama\n", "a b  c   d"] {
        let chars = chars_of(text);
        let mut found: Vec<String> = Vec::new();
        let mut from = 0;
        loop {
            let (start, end) = next_word(&chars, from);
            if start == end {
                break;
            }
            found.push(chars[start..end].iter().collect());
            from = end;
        }
        let expected: Vec<String> = text.split_whitespace().map(|w| w.to_string()).collect();
        assert_eq!(found, expected);
    }
}
