# wasi_messaging

A host for the WASI messaging interface backed by Azure Service Bus queues,
running a guest component with wasmtime.

- `src/` is the verified library:
  - `service_bus`: the Service Bus settings and the creation of queue clients;
  - `runtime`: per-channel clients and connections, and the `State` that keeps
    one client per channel;
  - `host`: the host's client (a queue client per configured channel), handed
    to the guest through the resource table, and dropped again;
  - `bindings`: connecting a guest to a named connection, and dropping the
    client resource it received;
  - `table`: wasmtime's resource table, as sets of handles;
  - `worker`: one worker per channel, and what a worker does after each peek;
  - `engine`: the wasmtime engine and the making of the guest component;
  - `guest`: the guest's configuration and handler.
- `app/` is the host program: environment, files, the WIT bindings, the async
  workers and the main loop.
- `tests/` exercises the library on concrete values.
