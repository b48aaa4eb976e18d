# omega-agi

A layered agent system (self-healing core, task graphs, test harness, evolution
loop, adapters, ReAct agents, research, life harness, superpowers, avatar) whose
decision logic is written in Verus and proved against its contracts.

- `src/` — the verified library, one module per layer (`hypercore`, `runtime`,
  `engineering`, `evolution`, `adapters`, `agent`, `research`, `life_harness`,
  `superpowers`, `avatar`), plus `text` (character-level string functions with
  specifications), `keyed` (sequences of keyed entries), `clock` and `cli`.
  Laws that relate several operations are public proof functions named `lemma_*`.
- `tests/` — tests of the library on concrete values.
- `app/` — the `omega-agi` program: command line, HTTP, processes, files, locks,
  sleeps, and the parts that compute with fractional numbers (fitness scores,
  embeddings, resource readings).
