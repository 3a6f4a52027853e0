# zenbook-duo-daemon

The core of a daemon for the ASUS Zenbook Duo, verified with Verus, and the tasks around it.
The daemon keeps the keyboard's backlight and microphone mute LED, the secondary display and
the function keys in order while the keyboard is attached, detached or connected over
Bluetooth, and while the laptop sleeps.

- `src/` is the verified library. It decides: an operation takes what was read as plain values
  and returns what has to be done, in order. Laws that span several operations are the proof
  functions whose names begin with `law_`.
- `app/` reads and writes: files, devices, sockets and buses.
- `tests/` runs the library on concrete values.

What is trusted of the `pulseaudio` crate stands in `src/pulse.rs`, with a comment on each item.
