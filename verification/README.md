# iceoryx2_bridge

The verified core of Python bindings for the iceoryx2 inter-process
communication middleware.

- `src/` is the library, verified with Verus: the text of attribute values
  (`text`), service, publisher and subscriber configurations with their
  defaults and strategy names (`config`), the errors and their messages
  (`error`), the request that opens a service (`service`), the lifecycle of
  notifier, listener, publisher and subscriber ports and the decisions of the
  event wait loops (`event`, `pubsub`).
- `app/` holds the Python classes (pyo3) and every call into iceoryx2:
  creating nodes, services and ports, sending and receiving payloads and
  events, and running the wait loops.
- `tests/` exercises the library on concrete values.
