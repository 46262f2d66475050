# wallcove

The verified core of the Wallcove wallpaper daemon, written in Verus.

- `src/` is the library. `wallpaper` and `protocol` hold the messages shared by
  the daemon and its clients; `daemon` the work each request asks for;
  `client` the way a client reads an answer;
  `engine` the record of the active wallpaper (`engine::engine`), the
  acceptance of media files (`engine::media`), the order in which static
  wallpaper backends are tried and the commands they run
  (`engine::static_image`), and the decisions of the native video session:
  its setup checks and frame loop (`engine::video::linux::session`) and its
  output bookkeeping (`engine::video::linux::wayland`). `text` holds the string routines
  these need.
- `app/` is the daemon program around it: the TCP server, the request
  handlers, the process and file-system work, the video session threads and
  the Wayland connection, and the serde forms of the messages.
- `tests/` runs the library on concrete values.
