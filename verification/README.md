# map_stop_api

The verified core of a route-planning service that plans routes around
circular avoid zones ("hard avoid": a route that enters a zone is refused).

- `src/` — the library, verified with Verus: CSV import of avoid points,
  routing-provider selection, Gaode request and answer rules, and the request
  rules of every endpoint. Coordinates and radii are handled as the IEEE-754
  binary64 bit patterns of the numbers the service reads, so that the range
  rules are decided exactly without floating point in verified code.
- `tests/` — tests of the library on concrete inputs.
- `app/` — the HTTP service: configuration from the environment, SQLite,
  axum endpoints' work, the Gaode and Nominatim clients, and the geometry that
  computes in floating point.
