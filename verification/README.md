# Tactum

Tactum gives programs a small, platform-independent API for controlling the
local computer: mouse, keyboard, clipboard, displays and screenshots.

This crate is its verified core, written in Verus:

- `input`: mouse buttons, keys, the macOS key codes and mouse event kinds,
  the Windows scan codes, mouse flags and wheel units, and UTF-16 encoding
  of typed characters and clipboard text.
- `computer`: the exact input events (and their order and batching) that
  each request becomes on macOS and on Windows; other platforms are
  unsupported.
- `pixels`: conversion of premultiplied BGRA bitmaps into opaque RGBA,
  BGRA to RGBA swapping, and bitmap size checks.
- `compose`: painting display captures onto a black virtual-desktop canvas
  with nearest-neighbour scaling.
- `desktop`: the rectangle that encloses all displays, display ids, and the
  screen-capture pipeline from BGRA pixels to PNG.
- `encode`: PNG encoding through the `image` crate.

`app/` holds the operating-system side: the public API with its
floating-point desktop geometry, and the macOS (Core Graphics, AppKit) and
Windows (Win32) backends that carry out the plans computed here.
