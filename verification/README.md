# korangar

The core logic of a Ragnarok Online client, written in Verus: each public
function carries a contract that Verus proves.

## Layout

- `src/system/event_bus.rs`: a publish/subscribe event bus over a caller-chosen
  handler type, with deferred events; a program's own event types name kinds
  of their own.
- `src/settings/keybinding.rs`: bindable keys, their key codes and names, and the
  keybinding settings.
- `src/graphics/framepace.rs`: frame timing statistics for upload pacing.
- `src/loaders/`: the skill tree table, the map alias table (`mapnametable.txt`)
  and the file index of GRF archives.
- `src/networking/`: connection states, stream framing (skipping unreadable
  packets, keeping cut-off ones), and the chat messages, failure reasons and
  event data that server packets are reported as.
- `src/interface/`: window classes and the texts, menus, colors and requests of
  the game's windows and item slots, and what the minimap draws.
- `src/inventory/skills.rs`, `src/world/`: the player's skill tree, skill names
  read from `SkillID.lub`, and the weather type.
- `src/text.rs`: the text helpers that the parsers and formatters share.
- `tests/`: tests of the library on concrete values.
- `app/`: what surrounds the library: settings files, file reading, running
  the `SkillID.lub` script, the network task, and the effects that are computed
  in floating point.
