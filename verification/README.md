# gcal-widget

The control logic of a frameless desktop widget that shows a self-hosted web
calendar, written in Rust and proved with [Verus](https://github.com/verus-lang/verus).

Refreshes are double-buffered: a hidden window loads the next generation of the
calendar every five minutes and replaces the visible one only after it is ready.

## Layout

| Path | Purpose |
| --- | --- |
| `src/` | The library: every decision, with its contract |
| `tests/` | Tests of the library |
| `app/` | The Tauri shell that performs what the library asks for |

## How the pieces fit

The library never touches a window. It asks for one `Action` at a time and takes a
`Reply`; `Coordinator` runs the refresh loop that way, `Attempt` a single attempt and
`HandoffStage` the exchange of the two windows. `SetupStage` does the same for the
start of the application.

## What is proved

* Some window is visible at every point, and outside a handoff it is the active one
  (`law_calendar_stays_visible`). A call that reports a failure is taken to have
  changed nothing.
* Pages load in the hidden window only, and only the page of the current attempt is
  taken for it (`law_pages_load_out_of_sight`, `law_stale_events_are_rejected`,
  `law_loaded_page_reports_its_attempt`).
* A refreshed URL carries its token, exactly once, and keeps the other parameters,
  the path and the fragment (`law_refreshed_url_carries_token`,
  `law_reserved_parameter_once`, `law_other_pairs_stay`,
  `law_refreshed_url_keeps_path_and_fragment`).
* Failures are followed by growing waits up to a cap, successes by the regular
  interval (`law_failures_in_a_row_are_counted`, `law_backoff_grows_to_its_cap`).
* Only release builds touch the login entry (`law_only_a_release_enables_autostart`).

What is taken for granted of the `url` crate stands in `src/url_query.rs`.
