# pookie_homecoming

The rules of a small 2D space shooter, verified with Verus.

- `src/` is the verified library: screen flow (`screens`, `state`), the
  typewriter story screens (`story`), wave and checkpoint progress
  (`waves`), ship input and shot bookkeeping (`ship`), laser damage
  (`enemy`), the score grade (`score`) and the star field layout (`stars`).
- `app/` is the Bevy program around it: rendering, audio, input, timers and
  everything that computes with floating point (positions, angles,
  stability, volume).
- `tests/` runs the library on concrete values.
