# Moments

The rules of the Moments photo library, written in Verus: identifiers and
records, the SQL that the repositories run, import and upload pipelines, edit
bookkeeping, EXIF reading, and the commands that drive them. Every function
states what it returns in `requires` and `ensures`, and Verus proves it.

- `src/` is the library. It holds plain values and decisions. What alternates
  decisions with disk, database or network work is a machine: a state says what
  to do next, and the answer leads to the next state. SQL is data: a
  `sql::Statement` is its text with the values bound to it. Fractions are kept
  as the bits of their floating-point form.
- `app/` is ordinary Rust around the library: SQLite, HTTP, codecs, the keyring
  and the renderer's floating-point arithmetic. It performs what the library
  asks for and hands the outcome back.
- `tests/` runs the library from outside; `tests/database.rs` runs its
  statements on SQLite.

The calls into outside crates that the library makes itself stand behind small
functions marked `#[verifier::external_body]`. The doc comment of each says
what is claimed of the outside function.
