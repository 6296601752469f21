# rnp

A Rust binding to the RNP OpenPGP C library (`librnp`), split in two:

- `src/` — the verified core, checked by Verus. It holds everything the
  binding decides on its own: algorithm and format names, flag words,
  option and builder state, the ordered lists of librnp calls that key
  generation, encryption and signature creation make, the mapping of
  librnp result codes to errors, the password and key-provider callback
  decisions, and the build configuration of the vendored librnp (Botan
  modules, compilers, dependency prefixes). Contracts state these over
  spec functions (paths are joined by std's `Path::join`); laws such as "clearing a builder list is librnp's clear" and
  "the first registration under a name is the one found" are proof
  functions.
- `app/` — the librnp side: handles, memory inputs and outputs, the
  callbacks librnp calls, and the loops that make the calls the core
  lists. It is ordinary Rust over librnp's C API.

`tests/` exercises the core on concrete values.
