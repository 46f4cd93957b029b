# yt-dlp wrapper backend

The backend of a small desktop program that downloads videos with yt-dlp and turns them into
editor-friendly files: MP4 with H.264 video and AAC sound, or M4A with AAC sound. A front end
talks to it over newline-delimited JSON on standard input and output.

## Layout

- `src/` is the library, verified with Verus. It holds the decisions of the backend, each
  with a contract:
  - `protocol`: which requests are accepted, the method each calls, the steps that serve
    each request, download parameters;
  - `engine`: error codes and payloads, URL and folder checks, the outcome of a tool check,
    and the slot that lets one operation run at a time;
  - `tools`: release assets, update plans, the steps of an installation, checksum listings,
    archive contents and the cleanup of old tool sets;
  - `media`: the yt-dlp and FFmpeg command lines, what their output lines mean, bitrate
    guidance (the rate cap of a re-encode), progress text and output names;
  - `platform`, `model`, `desktop_model`, `config`: tool layouts, the shared data types and
    the saved settings;
  - `text`, `paths`, `unique`: text operations with their specifications, path joining and
    fresh identifiers.
- `tests/` runs the library on concrete values.
- `app/` is the program around it: the protocol loop, processes, files, the network and the
  parts that compute with floating point.

The program's earlier stand-alone desktop window (a Slint user interface) is not part of this
crate: the window now belongs to a separate front-end process, and only the values its tool
set uses remain, in `desktop_model`.
