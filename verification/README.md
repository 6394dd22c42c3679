# cuvs

Checked parameters, tensor metadata and call plans for the cuVS C library,
verified with Verus.

The library never calls the C library. It decides: which settings are refused
and with what message, what goes into each parameter record, which tensors are
handed over and how they are described, which calls are made, in which order,
and what is released at the end. A call is a value (`call::Call`); what the C
library answered comes back as an argument.

- `src/` is the library. Every function states what it returns.
  - `dlpack`, `dims`, `array`, `torch`: tensor views and the sources they are
    made from.
  - `distance`, `cluster::kmeans`, `neighbors`: parameters and operations of the
    algorithms. `neighbors::filters` holds the words that include or exclude
    rows.
  - `call`, `construction`, `release`, `resources`, `logging`, `version`: calls
    of the C library, and the objects that calls make.
  - `ffi`, `error`, `path`, `text`, `settings`, `binary`: values at the border.
    Floating-point numbers are held by their bits (`binary`).
- `app/` performs the calls: foreign declarations, builders with floating-point
  settings, guards that release what they hold, and conversions from tensor
  crates.
- `tests/` runs the library on concrete values.

What is believed without proof is marked `external_body`, with a comment that
says what is believed: `String::from_utf8_lossy` in `text`, the dimension lists
of `tinyvec` in `dims`, and what `ndarray` reports of an array in `array`.
