# m321

The verified core of the M321 climate dashboard: a web service that shows
the temperature and humidity readings that Arduino stations publish over
MQTT, behind a Keycloak sign-in.

- `src/` is the library, verified with Verus:
  - `text` – decimal numerals and appending to strings;
  - `user_id` – the textual forms of the UUIDs that identify users;
  - `endpoints` – the Keycloak and callback addresses;
  - `auth` – the sign-in and sign-out flows as state machines, and the
    guard in front of protected pages, with the address it sends
    anonymous visitors to;
  - `telemetry` – which sensor readings are logged;
  - `models` – stored records.
- `app/` is the web service around it: actix-web handlers, sessions,
  MongoDB, the MQTT event loop, the OAuth client and the HTML views. It
  feeds the library's state machines what arrives and performs the actions
  they return.
- `tests/` runs the library on concrete values.
