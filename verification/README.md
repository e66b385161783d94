# qr_code_styling

Styled QR codes as SVG documents: dots of several shapes, finder patterns drawn on their own,
colors and gradients, a round or square background, an optional embedded image, and a
circular layout. The library is written in Verus; its functions carry contracts that state
the exact document they produce.

- `src/` is the verified library.
  - `qr_matrix`: the module matrix built with `fast_qr`, neighbor and finder lookups.
  - `layout`: sizes and positions in thousandths of a pixel, the modules hidden behind an image,
    and which modules get dots.
  - `figures`, `paint`: the SVG pieces of one dot or finder pattern, and of colors and gradients.
  - `svg_renderer`: the whole document (`svg_text` states it), and `SvgRenderer`.
  - `qr_code_styling`, `config`: the styled code, its options and their builder.
  - `raster_renderer`: encoding a raster image as PNG, JPEG or WebP with `image`.
  - `text`: decimal and hexadecimal text of numbers.
- `app/` rasterizes documents with `resvg` and writes files.
- `tests/` runs the library on concrete inputs.
