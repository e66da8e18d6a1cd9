# emblize_py

The verified core of a Python binding for a compact binary token format.

- `src/` is the library, verified with Verus:
  - `tag` — token kinds and the Python types that stand for them as dtypes;
  - `token` — the token tree and its mathematical view;
  - `types` — the model of the Python values the encoder reads;
  - `encode` — Python value to token (`py_to_token`, `f64_to_token`, `type_to_token_tag`);
  - `decode` — token to Python value (`token_to_py`, `token_to_f64`, `token_tag_to_dtype`);
  - `frame` — feeding a stream decoder's ring buffer and collecting its frames;
  - `display` — the printed forms of the value classes;
  - `laws` — properties across these functions, proved.
- `app/` is the Python extension module around it: it reads Python objects into
  the library's model, builds Python objects from its results, holds the Python
  classes, and calls the format crate for the bytes.
- `tests/` runs the library on concrete values.
