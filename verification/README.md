# nokhwa (verified utilities)

The camera description types of nokhwa (frame formats, resolutions, camera formats, camera
information, camera controls, capture backends, camera indices) and the conversion of camera
frames (YUYV 4:2:2 and MJPEG) to RGB888, with contracts checked by Verus.

- `src/` is the verified library: `format`, `info`, `control`, `backend` hold the types,
  `order` their orderings and the laws about them, `convert` the YUYV conversions, `mjpeg` the
  MJPEG decoding through `mozjpeg`, `text` decimal rendering, `error` the error type.
- `app/` holds what Verus does not take: `Display` and `Ord` for the library's types, and the
  conversions to the types of the `uvc` and `v4l` crates.
- `tests/` runs the library on concrete values.
