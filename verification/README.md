# lobby_server

The rules of a small WebRTC signaling server, verified with Verus. Clients connect over web
sockets, get a number, register lobbies by name, list the lobbies of others, and pass session
offers, responses and address candidates on to each other.

- `src/connection.rs`: one client, and what follows from what it sends
- `src/context.rs`: what the clients share
- `src/lobby_names.rs`: the table of lobbies
- `src/lobby_regex.rs`: the rule for lobby names, on top of the `regex` crate
- `src/message.rs`: requests, answers and actions
- `src/server.rs`, `src/laws.rs`: the server as a whole, and what holds of it at any time
- `src/port.rs`: the port to listen on
- `src/rooms.rs`, `src/words.rs`: a simpler server that hands out room codes
- `app/`: sockets, files and the log around the library
