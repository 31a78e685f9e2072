# cpp_toolkit

The core of a Zed extension for C/C++ workspaces (clangd, CMake, MSVC), as a
library verified with Verus.

- `src/` — the verified library: configuration presets, merging and
  resolution (`config`), Zed task generation (`build`), CMake commands,
  compile database and target discovery (`cmake`), Visual Studio / MSVC /
  Windows SDK discovery (`environment`), `.clangd` rendering and the
  workspace preparation done before clangd starts (`lsp`), and per-toolchain
  task adjustments (`toolchain`). Host commands go through a
  `CommandRunner` (the host's, with no contract), always wrapped in a
  verified `TranscribedRunner` that records each command with its answer;
  the contracts of the workspace steps are stated over that transcript.
  Local files are read through `LocalFiles` (again the host's, with no
  contract), always wrapped in a verified `RecordedFiles` that records each
  path asked about with its answer; laws about the library
  as a whole are public proof functions named `law_*`.
- `app/` — the extension itself: Zed's entry points, reading
  `.zed/cpp-toolkit.toml` and `.zed/settings.json`, running host commands
  and reading files from disk.
- `tests/` — tests of the library through its public API.
