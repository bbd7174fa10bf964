# frpc

The core of an RPC framework for Rust, with its behaviour stated as contracts
and proved with Verus.

- `src/` is the library:
  - `type_id` and `message`: the shapes types describe themselves by, and the
    registry of user-defined types (kept sorted by name);
  - `frpc_message`, `definition`, `__private`: the description of a service
    and of its procedures;
  - `fn_once`: calling a function with its arguments packed in a tuple;
  - `derive`: what `#[derive(Message)]` generates for a type;
  - `declare`: the grammar of `declare!`;
  - `output`: how a procedure's call is started and polled;
  - `responce`: the response frame (status byte, length-prefixed payload);
  - `transport`: how an HTTP/2 unary request is admitted, read and split;
  - `server`: the WebSocket handshake and the example server's routing;
  - `config`: the client generator's settings.
- `app/` is the example server and the glue to the network, the file system
  and the macro toolchain (`syn`, `quote`), which calls the library.
- `tests/` exercises the library on concrete values.
