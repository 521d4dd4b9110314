# glorp

Verified core of a game client: the decoding and parsing of the packets the
game server sends, and the decisions the client makes on messages from its
web page and on web requests.

- `src/json.rs` — the model of decoded JSON/MessagePack values and the field
  readers the parsers use.
- `src/opcodes.rs` — the opcode table and name lookup.
- `src/packets.rs`, `src/parser.rs` — the parsed packet records and the
  parser, each parse with an exact contract.
- `src/payload.rs` — base64 and MessagePack payload decoding (with its retry steps)
  and the selection of kill packets.
- `src/web_message.rs`, `src/client.rs`, `src/overlay.rs` — web messages,
  web requests, new windows and other client decisions.
- `src/laws.rs` — properties that hold across the parser's operations.
- `app/` — the command-line front end: reading responses, JSON
  (de)serialisation, floating-point statistics.
