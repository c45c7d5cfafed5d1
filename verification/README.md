# fusion-altitude

Altitude and vertical-velocity estimation that fuses barometric altitude with
gravity-compensated vertical acceleration through a two-state complementary
observer:

```text
residual = baro_altitude - h
v += (a + velocity_gain * residual) * dt
h += (v + position_gain * residual) * dt
```

## Layout

- `src/` — the verified library (Verus). `FilterCore<T>` holds the altitude
  and velocity estimates and the altitude reference. Its contracts state what
  construction, `reset` and `update` do to the state: the first update without
  a reference zeroes it at the barometric sample, later updates apply the
  caller's integration step exactly once to the current estimates. `laws.rs`
  proves the lifecycle properties over the model `CoreState<T>`.
- `app/` — the `f32` front end: `AltitudeSettings`, `GRAVITY` and
  `AltitudeEstimator`, which supplies the numeric step above to `FilterCore`.
  Floating-point arithmetic is outside what the verifier handles here.
- `tests/` — tests of the library.
