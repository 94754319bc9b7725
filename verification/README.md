# media_controller

The logic of a home media controller (disc drive, infrared remote, VLC, HDMI-CEC and a
few on-screen windows), written in Verus with its contracts proved.

- `src/` — the verified library:
  - `ir_remote_monitor` — the NEC decoder fed with the edges of the infrared receiver,
    the table of remote-control codes, and the law that a frame yields its code;
  - `vlc` — the bytes of VLC's remote-control requests, the reading of its replies, and
    what the player loop sends for each command;
  - `dvd_monitor` — the disc events that a udev event gives;
  - `hdmi_cec` — the `cec-ctl` command lines;
  - `cd` — album data read from a MusicBrainz lookup, the lyrics keys and rows, the
    cover choice;
  - `controller` — the messages of the event loop, what is done with them, and window
    placement;
  - `ui` — the state machines of the prompt, welcome, debug and lyrics windows, and the
    offering of a message to the windows in turn;
  - `debug_text` — the debug text of messages as the program prints them;
  - `text` — small verified text helpers (comparison, decimal output, `u32` parsing).
- `app/` — the program around it: threads, sockets, processes, GPIO, udev, the database,
  the network and the OpenGL windows.
- `tests/` — tests of the library.
