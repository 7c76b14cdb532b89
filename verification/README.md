# os_cli

The terminal client of the Agema Labs OS: a command-line tool (`os push`,
`os pull`, `os search`, `os task`, …) and a full-screen terminal interface
over the OS API.

## Layout

- `src/` — the verified library (Verus):
  - `text` — string helpers specified over character sequences and UTF-8
    byte lengths (truncation, trimming, splitting, padding);
  - `auth` — OAuth provider endpoints, the login URL and the token carried
    back in the browser's callback request;
  - `commands` — project arguments, task markers, user table rows, file
    types and MIME types, push plans, user lookup by email;
  - `upgrade` — release tags as semantic versions, release assets, and the
    SHA-256 checksum check of a downloaded binary;
  - `config`, `api` — the configuration and the API client's addressing;
  - `tui` — the terminal interface's state (`app`), every view's data
    (`views`), and `machine`: what each key press and each reply to a
    request does, and which request follows.
- `app/` — the program around the library: argument parsing, HTTP, files,
  the OAuth callback server, the terminal loop and drawing.
- `tests/` — tests of the library.
