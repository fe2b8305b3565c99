# i3stat

A status command for i3bar and swaybar: it runs a set of configured items
(battery, CPU, memory, disks, network, keyboard locks, backlight, scripts,
the time, ...), writes their blocks to i3bar, and answers clicks, real-time
signals and requests on its own IPC socket.

The crate is split in two:

* `src/` is the library, verified with Verus. It holds the logic: the i3bar
  blocks and the powerline layout (`bar`, `i3`), the configuration checks and
  the ordering of the items (`config`), the IPC framing and the routing of
  requests and clicks (`ipc`, `i3::ipc`, `dispatcher`), what each item shows
  and how it reacts to events (`bar_items`, `pulse`), the WAV sound the audio item
  plays (`audio`), the desktop
  notifications it sends (`dbus`), and the text helpers they share (`text`,
  `format`, `color`, `bytes`).
* `app/` is the program around it: reading the configuration files, the async
  runtime, the processes, files and sockets, and the JSON (de)serialisation
  of the library's types.

`tests/` runs the library on concrete values.
