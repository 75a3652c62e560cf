# synth_roof

A verified library for deterministic synthetic roof datasets. It samples scenes and camera
sequences of buildings from a seed, checks plans, records and manifests, and turns a scene into
labelled geometry and the numbers of a render.

- `src/` is the library. Every function has a contract that Verus proves. Numbers of single
  precision are held as their bits (`single::Single`), with addition, multiplication, division,
  roots and comparisons defined on integers and proved against exact rounding.
- Sines, cosines, tangents and powers come from functions that the caller hands in
  (`given`). What is sampled or assembled is stated as a function of the configuration, the
  request and their answers.
- Random words come from ChaCha20 (`draws`). Those few calls are the only ones that are
  believed without proof.
- `tests/` runs the library on concrete values, with `libm` for the sines.
- `app/` is ordinary Rust around the library: serialized forms, matrices and the graphics
  device.

Where to start reading: `sample_plan` for whole sequences, `check_sequence` for what an accepted
sequence keeps, `mesh` and `assembly` for geometry, `view` and `readback` for a render,
`mip_chain` for textures, `standard` for what the standard configuration always gives (with the
interval arithmetic of `bounds`), `check_config` for what an accepted configuration keeps and why
the standard one is accepted. Statements about several functions at once are the public proof
functions beside them.
