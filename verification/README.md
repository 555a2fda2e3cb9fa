# vidspeed

A command-line tool (and an optional web service) that changes the playback
speed of a video and strips its audio by running FFmpeg.

- `src/` is the verified library: reading the configuration, decimal
  numbers, splitting lists, naming output files, the FFmpeg command line and
  what its exit means, the job store of the web service with its state
  changes and reports, accepting uploads, and choosing which old files the
  clean-up removes. Calls into std (`String::push`, `Path::parent`,
  `Path::file_stem`, `Path::join`) and into uuid stand behind small trusted
  wrappers whose contracts say what is relied on.
- `app/` is the program around it: argument parsing, the terminal output,
  running FFmpeg, the file system, the HTTP server and its page, and the
  checks on the floating-point speed factor.
- `tests/` runs the library on concrete values.
