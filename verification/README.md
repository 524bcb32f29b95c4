# tts_backend

The core of a text-to-speech backend service, verified with Verus.

`src/` holds the verified library:

- `error` — the service's errors: codes, displayed text, HTTP status.
- `text` — decimal writing and parsing of numbers, path joining, line joining.
- `config` — building the configuration from environment settings.
- `clock`, `ids`, `json`, `cache` — the calls into `chrono`, `uuid`,
  `serde_json` and `lru`, each with the contract it is trusted to meet.
- `emotion` — the emotion preset catalogue and new emotion descriptions.
- `model` — voice model records built from what is found on disk.
- `training` — training jobs, their stages and the steps of a run.
- `tts` — checking and planning syntheses, and the cache of loaded models.
- `annotation` — transcription responses and annotations.
- `laws` — properties that relate several operations, proved.

`app/` is the HTTP server around it: actix handlers, file system work, the
Python engines (through pyo3), WAV reading and the floating point parts.
