# codex_usage

The verified core of a usage tracker for Codex. It turns the rollout files that Codex leaves on
this machine into token usage, turns, session relationships and metadata, and it decides how a
scan proceeds. Everything in `src/` is proved by Verus against the contracts that stand beside it.

## Layout

- `src/` is the library.
  - `text`, `order`, `encoding`, `identifiers`, `platform`, `paths`, `json` hold the values that
    the rest speaks of: texts, orders, canonical bytes and digests, UUIDs and times, paths,
    documents.
  - `shared`, `domain`, `diagnostics`, `state_index`, `session_index`, `global_state` hold what is
    stored or read, with the rules that make it valid.
  - `token_usage`, `normalization`, `usage` read token counts.
  - `rollout`, `rollout_parser` tell who owns each line of a rollout, and gather its metadata.
  - `metadata/` resolves threads: parents, roots, roles, titles, projects.
  - `ingestion/` counts usage (`usage_processor`), commits it chunk by chunk (`usage_pipeline`,
    `usage_window`, `source_batch`, `usage_commit`) and runs scans (`thread_group`, `usage_round`,
    `scan_run`).
  - `config`, `adapter`, `analytics`, `quota` decide for the edges of the tracker.
  - Files that end in `laws` state what holds of the library as a whole.
- `app/` opens files, sends requests and runs queries, and asks the library what to do next.
- `tests/` runs the library on given values.

## Paths

A path is read by the rules of the machine that the library runs on. `Platform::here` tells which
these are, and what depends on them takes a `Platform`. The rules of Unix are spelled out and
proved; on Windows the standard library is asked, and contracts name its answers.

## What is taken on trust

The digests of BLAKE3 and SHA-256, the parsing of UUIDs, RFC 3339 times and JSON documents, the
upper case of a character, the quoted form of a text and the rules for paths on Windows are named,
not defined: a contract says that a result is the named one of its input. Each such item says so
above its definition.
