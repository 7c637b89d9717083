# campus-lms-cli

A command line client for Moodle Web Services whose decision logic is
written in Verus and proved against its contracts.

- `src/` is the verified library: argument checks, error classification,
  profile and cache rules, warning aggregation, the task list, assignment
  rendering and the redaction applied before LMS data is cached. Calls into
  `time`, `url`, `sha2` and `html2text` go through the small trusted
  wrappers in `src/external.rs`, each with a contract stated over named
  results.
- `app/` is the program around it: argument parsing, files, the credential
  store, HTTP and JSON. It hands plain values to the library and prints what
  comes back.
- `tests/` runs the library on concrete inputs.
