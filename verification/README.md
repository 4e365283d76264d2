# stark_ui

The rules of a painting program's interface, verified with Verus: which gesture a pointer event
belongs to, what a drag of a row commits, what a preview shows and what "Done" lays, how the bars
and panels answer a press, and the small formats that they read and write (base64, bitmaps, colour
codes, path data).

- `src/` is the library. Every public function states in `ensures` what it returns or changes, a
  trait's methods in the trait, over spec functions on sequences, sets and integers. The public proof
  functions whose names begin with `law_` state what holds of several functions together.
- `tests/` runs the library on concrete values.
- `app/` is the page around it: the browser's calls, the markup, the surfaces and the stored
  records. What reckons in floating point (the colour wheel, the view's transform, the distances of
  a press) is there too.

An amount is a number at single precision, held by its bits (`src/amount.rs`): it is carried,
compared and written in decimal without being rounded on the way. A length that the library reckons
with is in 64ths of a pixel, or in 128ths where a half of one is taken.

What is trusted rather than proved is small: `String::push` and `str::to_uppercase` of the
standard library, and `wgpu::TextureFormat::is_srgb`.
