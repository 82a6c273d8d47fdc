# denoise

Verified fixed-point integer logic behind Nova zkML denoise prototypes. The library computes,
on `i64` values with overflow ruled out, the witness traces that the step circuits consume:
affine and MLP recurrences with (clipped) ReLU lookup tables, fixed-point MLPs with floor
rescaling, the denoise update in its `DoubleFloor` and `FusedFloor` modes, timestep
embeddings, zero-padded maximum-shape models, a single-channel Conv2d predictor, the public
state layout, and visualization helpers. Every trace generator returns an error exactly when
some iteration leaves its admitted ranges, and the padded time-embedding model is proved to
succeed and to agree with the real-dimension model whenever the latter succeeds.

Layout:

- `src/` — the verified library (Verus). `fixed_point`, `activations`, `affine`, `matrix`,
  `padding`, `layers::conv2d`, `models::*`, `public_state::layout`, `steps`, `visualization`.
- `tests/` — executable tests of the library.
- `app/` — field-element conversion, floating-point parameter encoding, serde copies of the
  visualization schema, the generic-field affine recurrence with its step circuit, the
  zero-padding and final-check constraint gadgets, and the generic Nova setup / prove /
  verify / compress helpers. The step circuits of the lookup, MLP, denoise and Conv models are
  not part of this crate.
