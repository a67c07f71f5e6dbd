# anki_card_adjuster

Edits a field of the cards of an Anki deck through the AnkiConnect add-on:
either sets the field to a new text, or finds and replaces text in it,
optionally removing HTML line breaks.

- `src/` is the verified library: the text replacement (`text`), the field
  edits and the updates they produce (`edits`), the requests sent to
  AnkiConnect (`requests`), the decoding of its replies (`responses`), the
  notes and models read from them (`notes`, `json`, `keyed`), and the
  handling of the edit form (`form`).
- `app/` is a command-line program that sends the requests over HTTP and
  feeds the replies back to the library.
