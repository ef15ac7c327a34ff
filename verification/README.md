# pocketbase_sdk

A client for the PocketBase REST and realtime API.

- `src/` is the verified library: it builds every request the client sends
  (method, URL, headers, query, JSON body) as a plain `HttpRequest`, keeps the
  signed-in state, and applies realtime changes to local collections and
  stores. Its contracts and laws are checked by Verus.
- `app/` is the network side: it sends the requests with `ureq` and `reqwest`,
  decodes the server's JSON into the library's types, and runs the realtime
  event stream.
- `tests/` exercises the library on concrete values.
