# iced_border

Borders drawn around containers: color, width, corner radii and line style.

- `src/` is the verified library. `Border`, `Radius`, `Style`, `Dash` and
  `Segments` are generic over the length scalar `L` (and `Border` over the
  color `C`); setters and constructors take any argument that converts
  (`Into`) into the field's type; every setter is proved to set exactly its
  fields to the converted argument, every
  free constructor to set its fields on the default border or radius (the
  other fields hold what `Default::default` returns for their type), and
  `src/radius.rs`, `src/border.rs` and `src/style.rs` end with the laws that
  relate the builders to one another.
- `app/lib.rs` instantiates the library with `f32` and holds what computes
  on floating-point lengths: the dash and dot presets, `Style::segments`,
  fitting a pattern to a length, the perimeter of a rounded rectangle, and
  the numeric conversions into `Radius`.
- `tests/` runs the library on `f32` values.
