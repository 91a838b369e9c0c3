# Tiny Business Simulator

Simulate a small business from one `.txt` file per product (sale price,
production time and costs) and plan its sales month by month in a terminal
interface.

The library under `src/` is verified with Verus: every public function has a
contract, and the laws of the library are stated and proved as public proof
functions.

## Layout

- `src/text.rs` — character-level text: display widths, trimming, splitting
  into lines and words, decimal text.
- `src/lang.rs`, `src/lang/` — the interface languages, their dictionaries,
  and the template filling and column alignment of the printed reports.
- `src/parser.rs` — the product file format: product and cost lines, with an
  error per bad line.
- `src/plan.rs` — the application state: periods, the per-month sales shares
  in tenths of a percent, their redistribution on an edit, locks and the
  month overrides.
- `src/slider.rs`, `src/sidebar.rs` — the sidebar sliders and what each key
  does to the state.
- `src/layout.rs` — screen arithmetic: bar widths, slider tracks, braille
  dots, word wrapping and the rows of the help overlay.
- `src/state_file.rs`, `src/roundtrip.rs` — the saved state file: writing,
  reading and settling it, and the proof that a settled state reads back as
  itself.
- `src/files.rs` — names of product, result, totals and state files, and a
  folder's product files in name order.
- `app/` — the program: command line, file and terminal I/O, and the
  floating-point economics (required sales, capacity, totals).
- `tests/` — tests of the library.

## Running

```
tiny-business-simulator [--lang <code>] <business_folder>
tiny-business-simulator --list <business_folder>
```
