# chips

The chips beside a terminal prompt, as a sandboxed plugin: where the pane is,
which branch it is on, how much has changed and what one chord would do.

- `src/` is the library, verified with Verus:
  - `api.rs` — the vocabulary plugin and host share (nodes, requests,
    answers, capabilities), each type with a view over sequences of
    characters, and the sentence and keys of every capability;
  - `state.rs` — what the chips know, as a state machine: each step hands
    back the effects it wants performed, and the host's tickets and answers
    are handed back in;
  - `view.rs` — what the chips draw, and the path arithmetic under it;
  - `laws.rs` — what holds across every state, action and answer;
  - `text.rs` — small character-by-character questions about text.
- `app/` is the plugin's ABI: the exports the host calls, the host's imports,
  and the wire copies of the vocabulary with serde's derives.
- `tests/` runs the library on concrete values.
