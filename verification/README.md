# goose_eggs (Drupal helpers)

Helpers for Goose load tests of Drupal sites, verified with Verus.

- `src/pattern.rs`: regular expressions compiled and searched by the `regex`
  crate, behind a few trusted items.
- `src/drupal/form.rs`: finding a form (`get_form`) and a form value
  (`get_form_value`) in HTML; building their patterns; removing line feeds.
- `src/drupal/login.rs`: `Login`, the defaults of a log-in.
- `src/drupal/log_in.rs`: the decisions of a log-in run (`LogInFlow`), as a
  state machine that takes events and gives actions.
- `src/drupal/laws.rs`: properties proved across these functions.
- `app/lib.rs`: `log_in`, which runs the requests of a log-in with Goose.
