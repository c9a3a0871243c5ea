# misskey_ltl

A web page that streams the local timeline of a Misskey server. Visitors keep one
HTTP response open; notes arrive in it as they are written, and a counter shows how
many visitors are connected.

`src/` is the library, verified with Verus:

- `text`, `chunk`, `timestamp`, `json`: numbers, bytes, points in time and JSON, with
  what is relied on from std and from `bytes`, `chrono` and `serde_json`
- `model`, `misskey`: the data, the messages of the server, and taking notes out of them
- `html`: notes and the visitor counter as HTML
- `feed`: the updates of the visitor counter
- `stream`, `response`: what a visitor is sent, and under which headers
- `connector`: how the connection to the server is kept

`app/` is the program around it: sockets, tasks, timers and logging. It reads the head
of the page from `assets/head.html`.
