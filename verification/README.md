# wag_characters

Character logic for a 2D fighting game, written in Verus. The functions in `src/` carry
contracts that Verus proves, except the small wrappers in `collections` around the
engine's hash maps and sets, whose contracts state what those collections do and are
taken on trust.

- `src/` — the verified library
  - `ids`, `events`: identifiers, status flags and the events actions send
  - `cancels`, `action_tracker`, `moves`: cancel rules and windows, following an action
    (or an older style move made of phases) through its script
  - `requirements`, `situation`: when an action may start, checked against the game state
  - `builders`, `script`, `attacks`, `dashes`, `jumps`, `throws`, `item_actions`: describing
    actions and attacks, and the timed events their scripts send
  - `strike`, `hits`: resolving hits and blocks, hitbox lifetimes
  - `resources`: health, meter and the other gauges
  - `ronin`, `ronin_stance`: the ronin's normals, throws, sword stance and its follow-ups,
    built with the attack and throw builders
  - `cpo`: cpo's normals and throws, and what charging the jackpot does
  - `items`, `catalogs`, `selling`: the shop, its catalogs, buying and selling
  - `collections`: the engine's hash maps and sets, with the contracts the logic relies on
- `tests/` — tests of the library on concrete values
- `app/` — the floating point side: flashes, movement impulses, jump physics, action speed,
  pushback, gauge bars, and the hitboxes, launches and steps of the ronin's moves
