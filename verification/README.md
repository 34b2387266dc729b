# fluvio_web

A verified core for a Fluvio client that talks to a Fluvio cluster over a
websocket proxy, for the proxy itself, and for a counter web component.

- `src/` is the library, checked by Verus:
  - `address`: absolute URLs and the calls into the `url` and `http` crates;
  - `connector`, `ws::net`, `web::net`: the websocket connectors and the URL
    each connection dials;
  - `ws::client`, `web::browser`: the native and browser Fluvio clients;
  - `web::routing`: the proxy URL derived from the page's location;
  - `proxy`: the endpoint a client is given, the treatment of client frames,
    and the pump between client and cluster;
  - `counter`: the counter widget's display rules and records.
- `app/` is the I/O around it: the actix proxy program, the websocket
  transports, the Leptos hooks and components, and the custom element.
- `tests/` runs the library on concrete values.
