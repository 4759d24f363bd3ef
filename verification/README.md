# MHF IELess Launcher

Boots Monster Hunter Frontier (the F5 and ZZ releases) without `mhf.exe` and `mhl.dll`, and fills
the in-game friend list.

- `src/` is the library, verified with Verus. It holds the friend table and the injector that
  fills it, the block of data and the shared memory that the client is started with, the look-ups
  in `mhf.ini`, the command-line flags, and the course of a launch.
- `app/` is the launcher program. It calls Windows, performs the steps that the library decides
  on, and copies the library's bytes into the client's memory. `app/main.rs` is the program, and
  `app/lib.rs` offers the same to other Rust projects: `run_mhf` boots the client in a 32-bit
  process, and a process of another kind can write its configuration as JSON and hand it to the
  program. Build it for a 32-bit Windows target, as the client is a 32-bit library.
- `tests/` runs the library on concrete values.
