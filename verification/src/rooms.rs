//! A server that hands out room codes, one text message at a time.

use crate::words::{chars_of, next_word};
use vstd::prelude::*;

verus! {

/// How far the exchange with a peer has come.
#[derive(Debug, Clone, Copy, PartialEq, Eq, Structural)]
pub enum ConnectionState {
    DUMMY,
}

/// One peer of the room server.
#[derive(Debug)]
pub struct Connection {
    pub state: ConnectionState,
    pub peer_name: String,
}

impl Connection {
    /// A peer nothing is known of.
    pub fn new() -> (connection: Self)
        ensures
            connection.state == ConnectionState::DUMMY,
            connection.peer_name@ == "stoad"@,
    {
        Connection { peer_name: "stoad".to_owned(), state: ConnectionState::DUMMY }
    }
}

/// The room server and its settings.
#[derive(Debug)]
pub struct GameServer {
    /// The port to listen on where the `PORT` variable is not set.
    pub default_port: u16,
    pub room_names: Vec<String>,
}

/// The code that a host gets who asks for none in particular.
pub open spec fn room_code() -> Seq<char> {
    "Obama"@
}

/// The answer to a message. Its first word says what is wanted, and `H:` asks to host a room: the
/// one whose code is the second word, or any room where there is no second word. Nothing else can
/// be asked for.
pub open spec fn reply_to(message: Seq<char>) -> Seq<char> {
    let words = crate::words::words(message);
    if words.len() == 0 {
        "E: Message did not contain whitespace\n"@
    } else if words[0] != "H:"@ {
        "E: Invalid opcode or syntax\n"@
    } else if words.len() == 1 {
        "H: "@ + room_code()
    } else {
        "H: "@ + words[1] + "\n"@
    }
}

impl GameServer {
    /// A server with these settings.
    pub fn new(default_port: u16, room_names: Vec<String>) -> (server: Self)
        ensures
            server.default_port == default_port,
            server.room_names == room_names,
    {
        GameServer { default_port, room_names }
    }

    /// Makes up a code for a room.
    pub fn generate_room_code() -> (code: String)
        ensures
            code@ == room_code(),
            code@ == "Obama"@,
    {
        "Obama".to_owned()
    }

    /// Answers what was read from a peer. Where nothing could be read there is no answer.
    pub fn handle_message(conn: &mut Connection, message: Option<&str>) -> (reply: Option<String>)
        ensures
            *final(conn) == *old(conn),
            match message {
                Some(message) => reply is Some && reply->0@ == reply_to(message@),
                None => reply is None,
            },
    {
        match message {
            Some(message) => Some(Self::reply(message)),
            None => None,
        }
    }

    /// The answer to a message.
    fn reply(message: &str) -> (reply: String)
        ensures
            reply@ == reply_to(message@),
    {
        proof {
            reveal_strlit("H:");
        }
        let chars: Vec<char> = chars_of(message);
        let (start, end): (usize, usize) = next_word(&chars, 0);
        assert(chars@.skip(0) == message@);
        if start == end {
            return "E: Message did not contain whitespace\n".to_owned();
        }
        let ghost opcode = message@.subrange(start as int, end as int);
        assert(crate::words::words(message@)[0] == opcode);
        if !(end - start == 2 && chars[start] == 'H' && chars[start + 1] == ':') {
            assert(opcode != "H:"@) by {
                if opcode == "H:"@ {
                    assert(opcode[0] == 'H' && opcode[1] == ':');
                }
            }
            return "E: Invalid opcode or syntax\n".to_owned();
        }
        assert(opcode == "H:"@);
        let (code_start, code_end): (usize, usize) = next_word(&chars, end);
        if code_start == code_end {
            assert(crate::words::words(message@) == seq![opcode]);
            let code: String = Self::generate_room_code();
            "H: ".to_owned().concat(code.as_str())
        } else {
            let code: &str = message.substring_char(code_start, code_end);
            assert(crate::words::words(message@)[1] == code@);
            "H: ".to_owned().concat(code).concat("\n")
        }
    }

    /// The port this server listens on, given the value of the `PORT` variable where it is set.
    pub fn listen_port(&self, port_var: Option<&str>) -> (port: Option<u16>)
        ensures
            port == (match port_var {
                Some(text) => crate::port::port_of(text@),
                None => Some(self.default_port),
            }),
    {
        crate::port::listen_port(port_var, self.default_port)
    }
}

/// A host who asks for a room by its code gets that room: the answer to `H:` and a code is the same
/// code.
pub proof fn law_host_gets_code_asked_for(code: Seq<char>)
    requires
        code.len() > 0,
        forall|i: int| 0 <= i < code.len() ==> !crate::words::is_white_space(#[trigger] code[i]),
    ensures
        reply_to("H: "@ + code) == "H: "@ + code + "\n"@,
{
    reveal_strlit("H: ");
    reveal_strlit("H:");
    let message = "H: "@ + code;
    assert(message.skip(2).skip(1) == code);
    crate::words::lemma_words_after_word(code, Seq::empty());
    assert(code + Seq::empty() == code);
    crate::words::lemma_words_after_word("H:"@, message.skip(2));
    assert("H:"@ + message.skip(2) == message);
}

/// A host who asks for a room without a code gets one made up, however much white space surrounds
/// the request.
pub proof fn law_host_without_code_gets_one(before: Seq<char>, after: Seq<char>)
    requires
        forall|i: int| 0 <= i < before.len() ==> crate::words::is_white_space(#[trigger] before[i]),
        forall|i: int| 0 <= i < after.len() ==> crate::words::is_white_space(#[trigger] after[i]),
    ensures
        reply_to(before + "H:"@ + after) == "H: "@ + room_code(),
{
    reveal_strlit("H:");
    crate::words::lemma_words_of_blank(after);
    crate::words::lemma_words_after_word("H:"@, after);
    crate::words::lemma_words_after_blank(before, "H:"@ + after);
    assert(before + "H:"@ + after == before + ("H:"@ + after));
}

/// A request to host with a code is answered with that code, whatever white space stands before,
/// between and after the words and whatever further words follow.
pub proof fn law_code_is_the_second_word(
    before: Seq<char>,
    between: Seq<char>,
    code: Seq<char>,
    rest: Seq<char>,
)
    requires
        forall|i: int| 0 <= i < before.len() ==> crate::words::is_white_space(#[trigger] before[i]),
        between.len() > 0,
        forall|i: int|
            0 <= i < between.len() ==> crate::words::is_white_space(#[trigger] between[i]),
        code.len() > 0,
        forall|i: int| 0 <= i < code.len() ==> !crate::words::is_white_space(#[trigger] code[i]),
        rest.len() > 0 ==> crate::words::is_white_space(rest[0]),
    ensures
        reply_to(before + "H:"@ + between + code + rest) == "H: "@ + code + "\n"@,
{
    reveal_strlit("H:");
    let tail = between + code + rest;
    assert(crate::words::is_white_space(between[0]));
    assert(tail[0] == between[0]);
    crate::words::law_words_from_the_front(between, code, rest);
    crate::words::law_words_from_the_front(before, "H:"@, tail);
    assert(before + "H:"@ + between + code + rest =~= before + "H:"@ + tail);
    let message = before + "H:"@ + between + code + rest;
    assert(crate::words::words(message)[0] == "H:"@);
    assert(crate::words::words(message)[1] == code);
}

/// A request to host without a code is answered with the made-up code.
pub proof fn law_made_up_code_is_for_want_of_a_word(before: Seq<char>, after: Seq<char>)
    requires
        forall|i: int| 0 <= i < before.len() ==> crate::words::is_white_space(#[trigger] before[i]),
        forall|i: int| 0 <= i < after.len() ==> crate::words::is_white_space(#[trigger] after[i]),
    ensures
        reply_to(before + "H:"@ + after) == "H: Obama"@,
{
    reveal_strlit("H: ");
    reveal_strlit("Obama");
    reveal_strlit("H: Obama");
    law_host_without_code_gets_one(before, after);
    assert("H: "@ + "Obama"@ =~= "H: Obama"@);
}

/// A message whose first word is not `H:` is refused, whatever stands around that word.
pub proof fn law_other_first_words_are_refused(
    before: Seq<char>,
    opcode: Seq<char>,
    rest: Seq<char>,
)
    requires
        forall|i: int| 0 <= i < before.len() ==> crate::words::is_white_space(#[trigger] before[i]),
        opcode.len() > 0,
        forall|i: int| 0 <= i < opcode.len() ==> !crate::words::is_white_space(#[trigger] opcode[i]),
        opcode != "H:"@,
        rest.len() > 0 ==> crate::words::is_white_space(rest[0]),
    ensures
        reply_to(before + opcode + rest) == "E: Invalid opcode or syntax\n"@,
{
    crate::words::law_words_from_the_front(before, opcode, rest);
    assert(crate::words::words(before + opcode + rest)[0] == opcode);
}

/// A message of white space alone is refused as such.
pub proof fn law_blank_messages_are_refused(blank: Seq<char>)
    requires
        forall|i: int| 0 <= i < blank.len() ==> crate::words::is_white_space(#[trigger] blank[i]),
    ensures
        reply_to(blank) == "E: Message did not contain whitespace\n"@,
{
    crate::words::lemma_words_of_blank(blank);
}

} // verus!
