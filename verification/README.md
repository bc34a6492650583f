# mpv

A verified library for driving the mpv player through libmpv's client API.

The library under `src/` decides and libmpv acts. Every operation comes out as a `Call` that has to
be made, and the number with which libmpv answers goes back in. What the library does is stated in
contracts and proved with Verus:

- `raw`, `data`, `text`: numbers, values and text as they are exchanged with libmpv
- `event`, `incoming`: events and errors, and how they are read from what libmpv hands out
- `command`: the operations of the player and their command lines
- `call`, `setup`: the calls into libmpv, and calls that follow one another
- `parent`, `instance`: parents and clients, and what they can do
- `observe`, `iter`: which events are observed by whom, and the iteration over them
- `observe_laws`, `iter_laws`: what holds of observation and iteration as a whole

`app/` binds the library to libmpv: it makes the calls, holds the locks, waits for notifications and
converts what C hands out into plain values.

Two functions are trusted, both in `text`: reading UTF-8 (`std::str::from_utf8`) and guessing an
encoding (`encoding::decode`).
