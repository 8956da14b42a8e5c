# pipewire-ao

Verified protocol, format and scheduling logic for PipeWireAO clients: the
parts of the client that decide, encode and validate, with their behaviour
stated as Verus contracts and proved.

## Layout

- `src/` — the verified library.
  - `ids` — SPA media types, subtypes, format keys, ndarray element types and
    layouts, with their raw identifiers.
  - `pod`, `pod_wire` — POD values and objects, their wire encoding, and the
    decoding of `Props` objects and scalar properties.
  - `format` — packed ndarray, vector and matrix formats and their
    `EnumFormat`/`Format` property lists.
  - `param`, `parameters` — buffer-parameter keys and owned parameter lists
    (metadata requests, fixed buffer counts).
  - `meta` — buffer headers, acquisition metadata fields, identities and PTP
    references.
  - `buffer`, `ndarray`, `progressive` — data planes, typed ndarray views and
    the progressive-publication ownership protocol.
  - `latest` — latest-buffer links, receiver wait policies and the idle/
    deadline state machine of a waiting worker.
  - `run_control`, `reset_control` — the versioned owner-mediated control
    protocols.
  - `rtc_data_loop`, `image_source`, `filter`, `discard`, `fits`,
    `properties`, `text` — configuration records, native-result
    interpretation, identifiers and string helpers.
- `tests/` — tests of the library on concrete values.
- `app/` — process-side glue: eventfd system calls and error messages.
