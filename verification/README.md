# http_server

The HTTP front of the workspace, with its decisions proved in Verus.

`src/` is the verified library:

- `address`: the address the server binds for a port (`0.0.0.0:` and the port in decimal).
- `config`: the cross-origin policy and how the web application's static files are served.
- `endpoint`: the API's endpoints, the path and method of each, and proofs that the paths
  are distinct and lie in the right scopes.
- `middleware`: the layers every request passes, in order, and the no-cache layer that only
  the API's answers pass.
- `routing`: where a request goes — an endpoint's handler, `405`, the server's `404`, the
  API's fallback handler, or the static files — with its laws.
- `trash`: the inbox's trash lookup as a state machine that checks the caller's membership
  before it touches the trash, with laws over whole runs.
- `text`: character-level helpers on paths.

`app/` runs the server with actix-web: it binds the address, applies the layers in the
order `middleware` gives (the project's own layers come from the services), dispatches `/api` requests through `routing::route` to handlers that the services
provide, serves the static files, and drives the trash lookup against the outside services.
