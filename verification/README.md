# ttd

A verified library for Microsoft Time Travel Debugging (TTD) traces, written
in Verus.

The replay engine itself lives in the TTD SDK (Windows only). This crate holds
what the SDK reports about a trace as plain values, converts it (UTF-16 and
UTF-8 names, architecture and event codes, register contexts and their text
form), keeps the navigation state of a cursor (position, flags, watchpoints),
and decides, around each SDK call, what to ask next and what the answer means.

Layout:

- `src/` — the verified library:
  - `position`, `flags`, `events`, `context`, `module`, `system_info`,
    `engine_info`: the data model and its conversions;
  - `replay`: the engine (what the SDK reported about a loaded trace) and the
    cursor (navigation state; requests to the SDK and the handling of its
    answers);
  - `record`: recording engines;
  - `text`, `utf16`, `utf8`: text building and decoding;
  - `pe`: export lookups in PE images, through `pelite`;
  - `unpack`: the decisions of the automatic unpacker (state machine,
    payload listing through `iced-x86`, YARA scans through `yara-x`);
  - `api_calls`: the decisions of the Win32 API-call tracer.
- `tests/` — tests run against the compiled library.
- `app/` — the programs around the library: the SDK calls (behind the
  `TraceSdk` trait, which a binding to the SDK implements), files, logging and
  the upload to Elasticsearch.
