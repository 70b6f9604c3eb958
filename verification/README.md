# please

A small build system for C and C++ projects, configured by a TOML manifest.

- `src/` is the verified library: the manifest as data, and every command line a
  build runs (compile, link, linker-flag expansion, dependency clones), each with
  a contract proved by Verus.
- `app/` is the command-line program around it: argument parsing, reading and
  deserialising manifests, touching the file system and running processes.
- `tests/` runs the library on concrete manifests.
