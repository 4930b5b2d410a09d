# tac_lookup

Offline IMEI / TAC lookup against a local copy of the Osmocom TAC database.

- `src/` is the verified library: digit normalisation and parsing of IMEI /
  TAC input (`imei`), the Luhn check and its error-detection properties
  (`imei`, `laws`), the refresh decision for the local database (`updater`),
  what the terminal shows for a result or an age (`display`), the database
  record types (`db`) and small string builders (`text`).
- `app/` is the command-line program around it: argument handling, the SQLite
  queries, the download, JSON output and coloured terminal output.
- `tests/` exercises the library on concrete inputs.
