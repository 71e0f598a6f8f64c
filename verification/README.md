# cityissue

CityIssue lets citizens report urban problems ("chamados": potholes, street
lighting, rubbish, ...) and lets administrators follow them up.

- `src/` is the library, verified with Verus: input validation (e-mail
  format, password rules, HTML escaping, known kinds and states), Argon2id
  password hashing, token claims and the `Authorization` header, the reply
  format, and every decision the HTTP handlers take (sign-up, login with
  lock-out, opening, editing, re-stating and removing chamados, admin checks).
- `app/` is the Actix Web server around it: routes, the SQLite store,
  signing and checking JSON Web Tokens, and the JSON forms of the records.
- `tests/` exercises the library on concrete values.
