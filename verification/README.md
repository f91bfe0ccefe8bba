# black_hole

The verified control logic of a real-time black hole renderer (GPU geodesic
ray tracing in Bevy), and the Bevy application around it.

- `src/` — the library, verified with Verus:
  - `presets` — iteration-cap and render-scale presets and stepping through them;
  - `frames` — temporal accumulation: frame count, parity, ping-pong textures, jitter index;
  - `halton` — exact Halton (radical-inverse) values;
  - `textures` — compute texture sizes, when to remake them, workgroup counts;
  - `grid` — spacetime grid level of detail, vertex layout, line segments, cache reuse;
  - `disk` — spin and outer disk radius adjustments;
  - `skybox` — cycling through the skyboxes;
  - `render` — render-node readiness, object uniform slots, blend-parameter bytes;
  - `scene` — the ordering of the scene's objects.
- `app/` — the Bevy application: windowing, input, GPU pipelines, and the
  floating-point physics and camera geometry.
- `tests/` — tests of the library.
