# Kalk

Kalk is an academic dashboard for the terminal: semesters, courses,
weighted categories and evaluations, with the grade still needed to pass.

## Layout

- `src/` — the `kalk` library, verified with Verus. It decides everything
  that does not touch a floating-point grade:
  - `keys` — which command each key press stands for, on every screen;
  - `forms` — form fields, Tab order, toggles and their cycling;
  - `nav`, `order` — selections in lists, rings and reordering;
  - `history` — bounded undo/redo;
  - `text`, `number` — trimming, comparing, numbering and reading numbers;
  - `import` — cleaning and validating an AI-produced course description,
    unique names, mapping of rule names;
  - `model` — rule enums, outcome tallies, credit sums, global-exam target;
  - `encoding` — base64 for the OSC 52 clipboard;
  - `i18n` — English and Spanish message tables.
- `app/` — the terminal program around the library: the grade model (all
  floating point), persistence, drawing and the event loop.
- `tests/` — tests of the library.
