# conform7_semantics

The kind system and the knowledge module of an Inform 7 compiler, written in
Verus: every function carries a `requires` / `ensures` contract that Verus
proves.

Layout of `src/`:

- `kinds` — kind constructors (the built-in ones, each one constructor,
  and any others made anew), kinds, the
  hierarchy of constructors, conformance and sameness of kinds, with the
  laws of conformance (reflexive, transitive).
- `lattice` — the kind above a kind, join and meet, with the laws that a
  join is the least upper bound and a meet the greatest lower bound of
  well-formed kinds, and that comparable kinds join to the greater and meet
  at the lesser.
- `calculus` — binary predicates, made in pairs with their reversals, and
  the families that stock, typecheck and assert them.
- `knowledge` — inference subjects, inferences and their joining,
  properties and permissions, property and relation inferences, the
  provision, same-property and property-setting relations, measurements,
  adjectives and their meanings, instances and their ordering, and the
  world-building stages.
- `text`, `search` — small verified helpers on text (decimal numerals,
  prefixes, hyphenation) and on first matches in sequences.

Registries are vectors indexed by position; contracts speak of them through
their `Seq` views. Laws that relate several calls stand as public proof
functions named `law_*`.

`tests/` holds the executable tests.
