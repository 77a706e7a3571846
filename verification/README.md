# csharp_plus

The provisioning logic of a C# extension for the Zed editor, written in Verus:
how the `csharp-ls` and OmniSharp language servers are found or installed, how
NuGet versions are parsed and ordered, and the remediation messages shown when
something goes wrong.

- `src/` is the verified library. `version.rs` parses and orders NuGet
  versions; `nuget.rs` is the feed client; `csharp_ls.rs` and `omnisharp.rs`
  are the two providers, each a state machine that asks the host for one piece
  of outside work at a time (`launch.rs` holds the shared vocabulary);
  `util.rs` holds the messages and the `global.json` reading; `json.rs` and
  `text.rs` are the JSON and text helpers.
- `app/` performs the host work (settings, files, HTTP, downloads, GitHub
  releases) against `zed_extension_api` and drives the state machines.
- `tests/` exercises the library on concrete values.
