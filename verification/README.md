# Jonect

Audio streaming between devices over TCP, UDP and USB.

- `src/` is the library: packet and message formats, audio buffers, and the
  decisions of every component, each with a contract which Verus proves.
- `app/` is the program around it: sockets, USB devices, audio devices, tasks
  and threads. It performs the actions which the library asks for and hands back
  what happened.
- `tests/` holds the tests of the library.

What follows from several contracts together is stated by proof functions whose
names start with `law_`.
