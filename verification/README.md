# feature_flag

Typed feature flags, verified with Verus: flags, environments, immutable published rulesets,
deterministic evaluation, and durable receipts of evaluations, for stores on D1 and on PostgreSQL.

## Layout

`src/` is the library. Every function in it has a contract, and Verus proves all of them but those
of the few functions that call outside crates.

- `domain`, `keyed`, `text`, `decimal`, `page`, `stamp`, `json`: the records, and what they are
  made of.
- `ruleset`, `bucket`, `choice`, `evaluation`: when a ruleset is valid, the bucket of a targeting
  key, the choice of a variant, and the answer and receipt of one evaluation.
- `d1`: what each operation decides on a snapshot, the guarded batch that commits it, and what
  becomes of a batch whose fate is not known. `d1::model` is the store as a mathematical object;
  `d1::laws` states what holds of it from one operation to the next.
- `postgres`: the statements, and the steps of a transaction, of a write and of an evaluation.
- `config`: configurations, and when they are refused.
- `tools`: the catalog of administration tools, and the way of a tool's request.
- `qualification`: the application that the plugin is put through its paces in, and the paces.

Reading and writing JSON, SHA-256, calendar texts, random identifiers, the naming rule of a
PostgreSQL schema, the resolution of a composition and the audience of an assertion are outside
crates' work. The functions that call them are marked, and say what is taken for granted.

`app/` is what Verus does not see: serialisation, the two databases, the host.

`tests/` runs the library with the outside crates.
