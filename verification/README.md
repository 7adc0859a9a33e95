# tshare

Collaborative terminal sharing. A terminal client runs a shell in a
pseudo-terminal and streams it to a tunnel server, which relays it to web
viewers and relays their keystrokes and resize requests back.

- `src/` is the verified library (Verus): the resize protocol and its
  decimal numerals (`decimal`, `protocol`, `text`), the client's settings,
  addresses and decisions (`client`), the tunnel server's session table
  (`session`), the relays between a terminal and its viewers (`relay`), the output kept
  for late viewers (`history`), and
  where logs go and servers listen (`config`).
- `app/` is the program around it: command-line parsing, HTTP and
  WebSocket plumbing, the pseudo-terminal and the console.
- `tests/` runs the library on concrete inputs.

`tshare tunnel` serves the session API and the WebSocket endpoints on one
address (port 8385 by default), where `tshare connect` looks for them;
`tshare tunnel-server` serves them on two addresses of their own (ports
8081 and 8080 by default). A viewer's WebSocket carries the viewer's
password in a `password` query parameter. The owner's password makes the
viewer the owner, whose keystrokes always reach the terminal; the guest's
password makes a guest, whose keystrokes are dropped when the session lets
guests only watch; in a session without passwords the first viewer is the
owner. A viewer who joins late first receives the latest output, up to
1024 chunks, kept in a bounded buffer (`history`).
