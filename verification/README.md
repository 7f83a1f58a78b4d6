# swt2

The verified core of a speech workstation backend (speech recognition,
speech synthesis, voice conversation and a local OpenAI-compatible API),
written in Verus.

- `src/` — the library, verified by Verus:
  - `config`, `settings`: the configuration, its defaults, dotted-key
    settings and the masked copy shown to the user interface;
  - `model_registry` (with `catalog_data` and `catalog_laws`): the model
    catalog, lookups, listings with download status, and the catalog's laws;
  - `downloads`: one-download-at-a-time bookkeeping, the files a model
    needs, and the resume decisions;
  - `audio`, `transcribe`: media file names (with Windows path prefixes),
    the WAV header, recognizer and ffmpeg arguments, and the transcript
    assembled from the recognizer's JSON output;
  - `locate`: where tools, the recognizer binary and the model folder are
    looked for, in order;
  - `speech`: the speech-synthesis script and its quoting, the
    language-model request and the steps of a conversation turn;
  - `api_server`: access control, forwarding and the model list of the
    HTTP API;
  - `history`, `ids`, `error`, `text`: history records, fresh names and
    time stamps, the error value, and text helpers.
- `tests/` — tests of the library on concrete values.
- `app/` — the I/O around the library: configuration file, SQLite history,
  audio decoding and resampling, tool invocation, downloads, the HTTP
  server, and the commands the desktop front end calls.
