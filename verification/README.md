# file_service

A file and template service: uploads are stored on a shared drive and
described in a document store, images get thumbnails, and templates
(HTML or XML, rendered with minijinja) are turned into documents.

The crate is written in Verus. `src/` is the verified library:

- `text`, `path`: text and path helpers (file names, extensions, joining)
  with specifications over `Seq<char>`.
- `common`: settings parsing, replies and errors, the user-info header,
  identifiers.
- `store`: the filters, paging plans and page assembly of the document
  store.
- `upload`: upload records, where files are stored on disk, upload plans,
  thumbnails, the external converter's arguments, and the decisions of the
  upload routes.
- `template`: template records, rendering, and the decisions of the
  template routes.

Calls into outside crates (base64, uuid, bson, chrono, mime_guess, image,
minijinja and a few std functions) go through small trusted wrappers whose
contracts state what those crates document.

`app/` is the unverified program around the library: the HTTP server
(axum), the MongoDB client, file I/O, the headless Chromium used to print
HTML to PDF, and serde copies of the library's types.

`tests/` runs the library against the real outside crates.
