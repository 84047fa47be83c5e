# ebook_transfer

Sends a UTF-8 text file from the phone to the reader app on a band, in
chunks of about 32 KiB, following the messages the band sends back.

- `src/` is the verified library (Verus):
  - `chunking` cuts a text into chunks at character boundaries, with the
    proofs that the cut is unique, that every chunk is valid UTF-8 of at most
    `target + 3` bytes, and that the chunks give back the text;
  - `json` is the JSON value the band exchanges, with its mathematical view,
    and reads and writes JSON text through serde_json;
  - `protocol` reads the band's messages and builds the sender's;
  - `state` is the sender's state and its consistency condition;
  - `transfer` holds every step of a transfer, from choosing a file to the
    band's final answer, each with an exact contract, and the step function
    that drives the start of a transfer;
  - `ui` works out what the main screen shows and builds its element tree.
- `app/` is the plugin around it: shared state, host calls, and the decimal
  figures on screen.
- `tests/` runs the library on concrete files and messages.
