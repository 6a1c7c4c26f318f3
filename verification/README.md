# banna

A code generator for ABP Framework solutions, split into a verified core
and a thin command-line shell.

- `src/` is the library, written in Verus. Every decision the generator
  makes is a function from plain values to plain values with a contract:
  naming rules and C# type mapping, the text fragments of every generated
  layer (backend, Razor/Vue/Angular UIs, React Native), the merges into
  existing source files (usings, permissions, menus, `DbContext`, AutoMapper
  and Mapperly registrations), theme and Bootstrap-override rewrites of MVC
  and Angular hosts, localization entries, the project index and history,
  and the portable toolchain's archive and checksum rules. Laws about these
  functions (idempotent merges, theme switches that settle, the project
  index keeping names unique, ...) are stated as public proof functions next
  to the code they describe.
- Regular expressions and SHA-256 come from outside crates (`regex`,
  `sha2`), and UTF-8 decoding and Unicode lowercasing from std, through a
  few trusted wrappers whose contracts name what the call computes.
- `app/` is the `banna-cli` binary: argument parsing, file and process I/O,
  JSON (de)serialisation, downloads, and the dry-run scratch copy. It reads
  files, hands their text to the library and writes back what it returns.
  The generator's templates and project scaffolds are read at run time from
  the `templates/` and `projects/` folders beside the executable (or the
  folders named by `BANNA_TEMPLATES_DIR` and `BANNA_PROJECTS_DIR`).
- `tests/` exercises the library on concrete inputs.
