# tower_defense

The rules of a small tower-defense game, verified with Verus.

- `src/` is the library: the two enemy paths (`paths`), the spawning of waves
  and the enemies' march (`enemies`), the turrets (`defense`), the messages
  between players and game (`commands`), the registry of connected players
  (`users`) and the map size (`board`). Positions and timers with fractions of
  a second are not part of the rules: the rules take, for each frame, whether
  a timer has run out or an enemy stands at its waypoint.
- `app/` is the program around it: the bevy world (sprites, floating-point
  positions and timers, the camera, flashes) and the warp server that relays
  players' messages over websockets.
- `tests/` runs the rules on concrete games.
