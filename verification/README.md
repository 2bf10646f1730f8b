# casparian_tui

The state and rules of the Casparian terminal UI, verified with Verus:
screens and their tab strips and how navigation moves between them, the
parser bench, the jobs list and how reloads merge into it, approvals,
sessions, queries, the command palette, the Discover screen, its source
selection and source edits, the glob explorer's folder listing, the
queries behind its file pages and the queue of writes waiting to be
stored, the rule builder, its searches and extraction rules, where a key
goes before a screen sees it, the key hints of each screen and how they
are packed into the action bar, what the screens do with the results of
background work, and the flow files used to drive and record sessions.

- `src/` is the verified library. Calls into outside crates (regex, uuid,
  chrono, blake3, the clock, paths) sit behind small trusted wrappers whose
  contracts name or state what the call returns.
- `tests/` exercises the library with the outside crates linked.
- `app/` holds what the library cannot: the JSON form of flows (serde),
  terminal keys (crossterm), drawing (ratatui), values computed in floating
  point, the headless flow runner and settings read from the environment.
