# Aquarium domain logic, verified

The domain rules of a smart aquarium controller, proved with Verus.

- `src/sensor.rs` — sensor kinds, units, and the physically valid range of
  each kind.
- `src/water.rs` — water-quality status and its order, how one parameter is
  classified, and how the findings of all parameters combine into one
  assessment (the worst status wins; the first finding of that status gives
  the reason).
- `src/pump.rs` — the cooldown between water changes and the decision table
  that says whether a change is not needed, recommended or required, with
  the laws that hold of it.
- `src/order.rs` — the integer ordering that the status and decision orders
  are defined by.
- `app/` — the floating-point side: sensor readings and their validation,
  water parameters, thresholds and `assess`, built on the library.
