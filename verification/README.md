# geocode-mcp

A Model Context Protocol (MCP) server that converts between place names and geographic
coordinates, with its logic verified by Verus. All lookups go through the free
[Photon](https://photon.komoot.io/) API (powered by OpenStreetMap): no API key or configuration
required.

| Tool | Description |
|---|---|
| `geocode` | Resolve a location name to coordinates (latitude, longitude, country, region, place type). |
| `reverse_geocode` | Resolve a coordinate pair to the nearest place (name, country, region, place type). |

## Layout

- `src/` is the verified library. A tool call becomes a `Lookup` (`arguments`, `service`,
  `tools`, `operations`), whose request is sent outside the library. The status and the body
  that come back are handed to `operations::photon`, which says what the lookup comes to, and
  `service::finished` says what the caller gets and what is counted. `laws` states what holds of
  all this together.
- `app/` is the server around it: it sends the requests, decodes the bodies, logs, counts, and
  speaks MCP through `mcp-core`. `app/main.rs` is the standalone binary, and `app/lib.rs` is for
  clients that link the server in.
- `tests/` runs the library on concrete calls and answers.

Verus believes what the functions marked `external_body` say of `serde_json`, `reqwest` and
`str::trim`; the doc comment of each names the outside function. A JSON value is modelled by
`json::Json`. Floating-point numbers stay outside the library: a coordinate that a caller gives
is carried as the text that it displays as, and one that Photon gives as the JSON number that it
came as.

## Logging

What is logged, and where a span ends up, is the work of `app/`, which Verus does not see. That a
failure is counted, and under which labels, is decided in `src/` and proved there; `app/` hands the
step to `mcp-core`.

- A `debug!` line each time a lookup goes out to Photon. A place name and a coordinate pair are
  tool arguments, so both stay at DEBUG and are never attached to a span.
- `geocode.upstream_failures`, a counter labelled `tool` and `reason` (`http_error` or
  `network`), for a fault reaching outward. A "no results" answer or bad caller input is a
  decline, not a fault, and is not counted.
