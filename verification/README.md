# space_craft

The game logic of a small multiplayer space game, written in Verus and
verified: pixels and the structures built from them, blocks and their
rotations, terrain and asteroid generation, spawn points, cameras and the UI
layout, player movement decisions, networking decisions, and the release
tooling's version arithmetic and manifest handling.

- `src/` is the verified library. Each module states what its functions
  return in `requires`/`ensures` contracts over spec functions, and the laws
  that relate several functions are public proof functions (`lemma_*`).
  Calls into `rand`, `semver`, `toml`, `toml_edit` and `convert_case` stand
  behind small trusted wrappers whose contracts are written beside them.
- `tests/` runs the library on concrete values.
- `app/` is the command-line release tool around the library (argument
  parsing, files, processes, logging) and the floating-point glue that turns
  the library's integer geometry into positions.

Where the game keeps a set of block locations (`DiscreteSphere::get_locations`
and the other terrain shapes), the library returns a `Vec` sorted by `x`,
then `y`, then `z`, and states that each location occurs once. A `HashSet`
keyed by the library's own location type (with derived `Eq` and `Hash`) has
no specification Verus can use, so the set is held as this sorted sequence.
