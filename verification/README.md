# arcdps_food_reminder

Verified core of a Guild Wars 2 ArcDPS plugin that tracks the food and utility
buffs of squad members and reminds the local player of missing buffs.

## Layout

- `src/` – the library, verified with Verus:
  - `data`, `defs` – buff definitions (sorted list and id-keyed map) and their defaults.
  - `tracking` – buff states, squad members, sorting, the tracker with its cache of own characters.
  - `reminder` – reminder settings, encounter handling and the decision when to remind.
  - `plugin` – plugin state and the handling of area combat events and squad updates.
  - `combat` – plugin variant driven by combat events with per-player buff tracking.
  - `builds`, `action`, `demo` – user builds, list actions and display names.
  - `arc_util` – ArcDPS enums and exported settings decoding.
  - `text` – string helpers.
- `tests/` – tests of the library.
- `app/` – the ArcDPS plugin around the library: file I/O, serde copies of the
  library types, imgui windows and the exported callbacks.
