# rusty_xinput

A gamepad library for Windows' XInput, with its logic verified by Verus.

- `src/gamepad.rs`: the polled controller state (`XInputState`) and its
  button, trigger and stick queries; equality by packet number.
- `src/loader.rs`: the protocol by which the XInput DLL is found and brought
  into use, as a state machine (`load_begin`, `load_step`), with the laws that
  a load attempt obeys.
- `src/poll.rs`: when a poll or rumble call is made, what is handed to it,
  and what its return code means.
- `src/shared.rs`: the state all threads share (status word, entry points,
  module) and the invariant that every loader step keeps on it.
- `src/stick.rs`: the dead-zone clamp used by stick normalization.
- `src/wide.rs`: UTF-16, NUL-terminated strings for Windows file names.
- `app/`: the code that talks to Windows (DLL loading, the XInput calls,
  compiled on Windows only) and the floating-point stick normalization.
