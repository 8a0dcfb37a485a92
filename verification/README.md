# parallex (verified core)

The verified core of a three-column binary viewer (overview, zoom, hex).

- `src/layout.rs` — column positions and widths across the canvas, divider
  hit-testing and dragging, the hex scrollbar strip (whole CSS pixels).
- `src/colormap.rs` — the colormaps and the order a header click cycles them.
- `src/keys.rs` — the keys the viewer handles and what each one does.
- `src/app.rs` — viewer state and the pointer gestures that change it. What
  the row geometry reads off a pointer position (`Pointer`) and the row
  metrics of the columns (`Rows`) are handed in; every gesture completes
  here. Also the plan of the visible hex rows (`App::hex_rows`).
- `src/names.rs` — the display name of a file fetched by URL.
- `src/entropy.rs` — byte histograms and the partition of a file into
  entropy windows.
- `app/lib.rs` — floating-point Shannon entropy per block, computed in
  parallel with rayon on top of the verified histograms and block ranges.
