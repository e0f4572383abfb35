# fusion

Fusion serves API endpoints ("destinations") whose answers aggregate the JSON
replies of upstream APIs ("sources"), optionally filtered by a jq program and
guarded by bearer tokens. Sources, destinations and tokens come from a YAML
configuration file that is loaded into a PostgreSQL database.

- `src/` is the verified library (Verus): the parse of the configuration text
  into the library's YAML model, the typed readers
  of configuration values, the source, destination and token records built from
  the configuration, the stored names of authentication and body variants, token
  hashing and validity, bearer-token extraction and lookup keys, the bind address and port, the fate of
  each source's reply and their aggregation,
  and the answers and errors of the API.
- `app/` is the server around it: environment, files, database queries, HTTP
  serving and outgoing requests.
- `tests/` runs the library on concrete values.
