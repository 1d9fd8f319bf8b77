# markdown

A command and its output, as Markdown ready to paste — a plugin for
[Crook](https://github.com/theguriev/crook), with what it decides proved in Verus.

Two entries in the menu a block's three dots open: **Copy as Markdown** puts the command
and what it printed in one `console` fence, and **Copy as a report** puts the same under a
heading, the exit status, the directory and the branch.

## Layout

| | |
| --- | --- |
| `src/format.rs` | What a block reads as. Each shape is a spec function that says the text character for character, and the code is proved to build exactly it — including that the fence is always longer than any run of backticks inside it. |
| `src/view.rs` | The two entries, and when the report is worth offering. |
| `src/state.rs` | The loop. Each step — build, render, press, ticket, answer — is a spec function from what the plugin knows to what it knows next and the one call it makes of the host, and each method is proved to be its step. The laws about tickets live here. |
| `src/sys.rs`, `src/sys/stub.rs` | The calls through the doors out of the sandbox, as values; a request encoded for the wire; and a host that writes down what it is asked, for the tests. |
| `src/wire.rs` | The bytes the exports read and write. A render and an answer are read with the host's own decoder, and what comes out is named; the drawn node and the manifest are written with its encoder, and the bytes are stated exactly. The methods that take bytes are proved to do what the methods that take values do. |
| `src/block.rs`, `src/text.rs` | What the host says about a command, and whitespace, trimming and decimal numbers. |
| `app/` | The wasm exports: host memory in and out, and the host's imports. |
| `tests/` | Scenarios, run against the compiled library. |
