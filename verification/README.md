# heave

An Entity-Attribute-Value (EAV) data model, with its behaviour stated and proved in each function's contract.

- `src/value.rs`: attribute values, their conversions from and to Rust values, and their text form.
- `src/entity.rs`: entities, their builders, and typed reads of their attributes.
- `src/filter.rs`, `src/comparison.rs`, `src/condition.rs`: the description of a query.
- `src/catalog.rs`: the in-memory catalog of entities.
- `src/failed_to.rs`, `src/sqlite.rs`: failures.
- `src/laws.rs`: properties that relate several operations.
- `app/lib.rs`: a lock-protected catalog for several threads, and the text of real numbers.

Real numbers are held as the bit pattern of an `f64` (`f64::to_bits`).
