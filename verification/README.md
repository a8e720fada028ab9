# vello_bench2

Bookkeeping of a browser benchmark for 2D renderers, verified with Verus.

`src/` is the verified library:

- `scenes` — scene and parameter identifiers, their order, bits and saved names.
- `capability` — capability profiles held as bit masks, with their meaning as sets.
- `backend` — the rendering backends, their saved names and capability profiles;
  `backend::canvas2d` holds the Canvas 2D backend's own answers.
- `benches` — the predefined benchmarks, their categories in the order shown, and whether a
  backend can run them.
- `harness` — the benchmark schedule: whether a run starts, warm-up frames, measured frames,
  next benchmark.
- `ab` — the A/B schedule between a control and a treatment build, and whether an A/B run starts.
- `resource_store` — images cached per scene and epoch, released when the epoch changes.
- `storage` — calibration keys and profiles (saving keeps one per key; one count per group), and the saved
  report list.
- `text` — string comparison.

Every module but `text` states its laws as `law_*` proof functions; `text` has a
single function, whose contract says all there is to say of it.

`app/` is the browser side: local storage and JSON, frame timing, averaging of
frame times, and the JavaScript globals of the page.
