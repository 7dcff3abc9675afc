# fartcloud

FartCloud is a Flappy-Bird-like game: a cloud flies through four altitude zones by
farting up or down, dodges obstacle clouds, and dies on the ground or in space.

- `src/` is the verified library: the game's screens and menus as a state machine
  (`session`), name entry (`name_entry`), combos (`combo`), the obstacle spawner's
  decisions and minimum cloud count (`difficulty`), the leaderboard views and cache
  (`leaderboard`), zone and death labels (`zone`, `death`), fart captions
  (`captions`), sound variant choice (`sound`) and the decoding of texts handed over
  by the web platform (`platform_text`).
- `app/` is the macroquad program around it: floating-point physics, camera,
  particles, drawing, audio, configuration loading and the JavaScript bridge.
- `tests/` exercises the library on concrete values.
