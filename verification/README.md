# rpc_discord

A client for the local RPC interface of the Discord desktop application,
with its protocol logic verified by Verus.

- `src/` is the verified library: the frame format of the IPC pipe
  (`utils::pack`, `utils::unpack`, `frame`), the JSON payloads that the
  client sends (`json`, `ipc`, `rpc`, the command and event names in
  `models`), the opcodes, and the search order for the pipe.
- `app/` is the program around it: the asynchronous socket, the client that
  performs the handshake, login and commands, serde's view of the message
  types, and `main`.
- `tests/` exercises the library on concrete values.
