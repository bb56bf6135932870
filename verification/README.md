# mekanikci

A conveyor design assistant: a natural-language request goes to a local
language model, which answers with a JSON conveyor specification; the
specification is checked against design rules and turned into a CAD model,
which OpenSCAD renders to STL.

## Layout

- `src/` — the verified library (Verus):
  - `design/layout.rs`: which parts a belt conveyor has, how they are named
    and in which order they appear, with proofs that names are unique and
    that support legs only add parts;
  - `design/motor.rs`: NEMA frames, motor mounts and frame dimensions;
  - `llm/parser.rs`: framing of the model's answer (white space, Markdown
    fences, the outermost JSON object);
  - `llm/validation.rs`: the dimension rules and their violation reports;
  - `llm/prompt.rs`: the prompts;
  - `tui/`: session history, application state and the chat, input and
    status widgets, with a proof that deleting undoes typing;
  - `output.rs`, `backend.rs`, `text.rs`: run directory names, rendering
    results, decimal numerals and string operations.
- `tests/` — tests of the library.
- `app/` — the command-line program: floating-point geometry of the CAD
  model, JSON decoding, OpenSCAD rendering, file I/O and terminal drawing.
