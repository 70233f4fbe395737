# channel_tools

Channel-scoped tool and persona policy for agent sessions, verified with Verus.

A policy document maps channels (by UUID, or by name matched without leading
`#` and without regard to ASCII case) to the MCP servers and the persona that
sessions in that channel run with. The desktop panel manages the same policy
through the `harbor` command line.

Layout:

- `src/text.rs`: trimming (Unicode white space), `#`-stripping, ASCII lower case, decimal text.
- `src/table.rs`: a text-keyed table with distinct keys.
- `src/policy.rs`: policy entries, their validation, the servers they scope, their persona, load errors.
- `src/tools.rs`: the resolved policy (`ChannelTools`): loading a document, resolving tools and personas.
- `src/harbor.rs`: checking harbor arguments, reading harbor replies, choosing the harbor binary.
- `src/commands.rs`: the panel's commands as a machine of harbor runs.
- `src/laws.rs`: properties that span these functions.
- `src/paths.rs`: expanding a leading `~` in persona file paths.
- `src/uuid_key.rs`, `src/formats.rs`: the calls into `uuid`, `serde_json`, `toml` and std's lossy UTF-8 decoding.
- `app/lib.rs`: file and process I/O, TOML deserialisation of the policy file, the async command entry points.
