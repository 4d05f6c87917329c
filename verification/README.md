# commons

Shared building blocks of a game-betting backend that stores its data in
ArangoDB, written in Verus. Of its Solana side it holds the accounts, bets
and challenges as plain values; the program clients that sign and send
transactions are not part of it.

- `src/` is the verified library:
  - `database::aql`: an AQL query builder whose text is specified step by step;
  - `database::{collections, documents, indexes, setup}`: the collections,
    their names, indexes and creation order, and the queries on them;
  - `database::{normalize, nullable_option, mapping, reference}`: document
    fields, their normalization and how queries map them to JSON;
  - `database::writes`: the options and retries of document writes;
  - `database::{config, config_cache}`: the configuration document and its cache;
  - `data::remote_mutex`: locks on documents shared by several nodes;
  - `data::{arena, validators}`: Clash Royale arenas and tags;
  - `clients`: Clash Royale battle times and requests, Solana accounts.
- `app/` is the unverified input and output around it: configuration files,
  serde forms of the library's types, the ArangoDB connection, the Clash
  Royale API client and the async loops.
- `tests/` runs the library on concrete values.
