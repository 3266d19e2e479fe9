# tdisplay

Layout and logging logic for a LilyGO T-Display-S3 (ST7789, 320x170 in
landscape), verified with Verus.

- `src/geometry.rs`: points, sizes, rectangles, the screen's bounds.
- `src/style.rs`: colors, alignments, primitive and text styles; the
  embedded-graphics colors, font metrics and styled bounding box behind
  trusted wrappers.
- `src/framed.rs`: framed text boxes, their builder, placement of a frame
  next to another, and the laws of that placement.
- `src/ring.rs`: the ringbuf heap ring buffer of log lines behind trusted
  wrappers.
- `src/printer.rs`: the printer that keeps a bounded history of messages and
  renders the newest ones within the box's rows, with its laws.
- `app/`: the board (pins, display driver), drawing with embedded-text, and
  `main`.
