# rencfs_winfsp

A WinFSP front end for an encrypted file system, with its decisions verified by Verus.

`src/` is the verified library. It does no input or output. An operation of Windows is a sequence of
steps: each either asks the encrypted file system for one thing and waits for the answer, or is the
outcome. Every step states exactly what is asked and what Windows is told.

- `error`, `time`, `clock`, `attr`, `text`, `path`: errors and their Windows codes, file times,
  attributes and records, UTF-16 text and the order of names, paths.
- `request`: what is asked of the file system and what it answers.
- `walk`: from a path to a file, name by name.
- `context`, `open`, `file`, `directory`, `order`, `volume`: handles and the operations on them.
- `host`, `mount`: the thread that serves a volume, mounting it, and the handle of its owner.
- `run`, `read_only`: what holds of whole operations, and of volumes that are mounted read-only.

Trusted are a few functions of `widestring` and of the standard library, each behind a small
function that says what it claims: `text::wide_to_string_lossy`, `text::string_from_utf16_lossy`,
and those in `clock`.

`app/` is ordinary Rust around the library: the runtime on which the file system is asked, WinFSP
itself, and the thread of a mount. `tests/` runs the library on concrete values.
