# snippets_app

A small store for code snippets, kept by title, with its logic verified by
Verus.

- `src/` is the verified library:
  - `model`: the `Snippet` record and its creation timestamp;
  - `storage::records`: the operations on the records of a storage (save by
    title, look up, delete, list in id order, next id), each with an exact
    contract; `storage::record_laws` proves what holds across them;
  - `storage::json`: the JSON file storage; `storage::setting`: the choice of
    storage from `PROVIDER:PATH`;
  - `cli`, `logging`, `layered_config`, `jsonrpc`: the decisions of the
    command line, the log settings, the configuration defaults, and the
    JSON-RPC request id.
- `app/` is the command-line program around it: file, database, network and
  environment access, serde (de)serialization and logging.
- `tests/` runs the library on concrete values.
