# xcb_imdkit

An input method (IME) client for X11, built on the xcb-imdkit C library.

- `src/` is the verified library: the client's state machine (`client.rs`:
  when to open the connection to the IM server, which key events go to the
  input context, what a move of the IME window sends, which window the
  callbacks receive), the input style flags (`style.rs`), the decoding of the
  strings the server sends and the preedit information (`text.rs`), and the
  laws that relate the client's steps (`laws.rs`).
- `app/` holds the calls into the C library, the X connection, the user's
  callbacks and the logger; each decision it takes comes from `src/`.
- `tests/` runs the library on concrete values.
