# latchnott

A resident Windows note taker: a global hotkey (or a second launch of the
program) opens a small input window, and each note typed there is appended
to a versioned JSON file.

The crate is written in Verus. Its library, under `src/`, holds the rules of
the program with their contracts, proved by Verus:

- `configuration`: defaults and checks of `configuration.toml`, and where the
  data directory is;
- `domain`: notes (never blank), UUIDv7 identifiers, RFC 3339 times;
- `application`: creating a note and handing it to a repository;
- `storage`: the notes file's schema, the checks a file must pass before it
  is used, and the save protocol that changes nothing unless the new file
  is in place;
- `logging`: the log line format and the rotation rule;
- `gui`: how the input window reacts to a save and where it is placed;
- `platform::windows`: the shortcut grammar, the pipe protocol between
  instances, single-instance ownership and the autostart command line;
- `text`, `paths`: the string and Windows-path operations these rest on.

`app/` is the program around the library: file, registry, pipe and window
work, and the threads that run them.
