# hugo_to_json

Builds a JSON search index (for Lunr and Lunr-like search) of the key front
matter and contents of the pages of a Hugo site.

- `src/` is the verified library: locating documents below the content
  directory (`file_location`), building the index entry of a page and its link
  (`page_index`), splitting the outcomes of a walk into pages and errors
  (`create_page_index` in `lib.rs`), the error types and their messages
  (`operation_result`, `program_error`, `cli_error`, `hugo_to_json_error`),
  command line configuration (`config`, `settings`) and text helpers (`text`).
  Calls into std and outside crates that the proofs rely on are listed as
  trusted items next to their callers (`foreign`, `file_location`, `text`).
- `app/` holds what the verifier does not see: command line parsing, logging,
  JSON serialisation and writing the index.
- `tests/` runs the library on concrete inputs.
