# bevy_spliff

Joins over entity relationships for bevy queries.

- `src/` is the verified core (Verus):
  - `join.rs`: what `Joined`, `JoinedFirst` and `JoinCondition` yield for one
    root entity, given the lookups of the targets of its relationship;
  - `mapping.rs`: how matched targets are shaped (`SingleJoin`, `MultipleJoin`);
  - `laws.rs`: properties relating the three joins;
  - `derive.rs`: how a `Joinable` implementation is derived from the shape of
    a struct, down to its source text.
- `app/` holds the bevy side: the `Joinable` and `JoinResultMapper` traits, the
  query types `J`, `JF`, `JC` with their `WorldQuery`/`QueryData`/`QueryFilter`
  implementations, and the derive entry point over `syn` tokens. Each of them
  hands its decisions to the core.
- `tests/` exercises the core on concrete values.
