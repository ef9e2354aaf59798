# boson_app

Verified core of the Boson operations console, the `/boson` pages through which
operators watch background work: registered tasks, the job queue and the history of
run attempts.

`src/` is a Verus library. It holds the decisions the pages make, each with a
contract proved by Verus:

| Module | What it decides |
|---|---|
| `status` | job and run states, their filter keys (with round-trip laws) and badge looks |
| `timestamps` | `HH:MM` labels of ISO timestamps, duration labels |
| `records` | table rows as `orbital_data::DataRecord`s whose values are all `DataValue::Text` |
| `columns` | column layouts of the queue, runs and tasks tables (none sortable) |
| `labels` | routing labels, column test-id slugs, prefixed test ids |
| `live` | live-event predicates and the run detail refresh decision |
| `queue` | the queue page's cancel workflow |
| `task_config` | the task configuration form: inputs, loading and saving |
| `parse` | decimal input as `str::parse` reads it, and that rendered numbers read back |
| `pages` | routes, run filters, chart ranges, dashboard counters, detail lookups |
| `email_override` | the test-lab email verification override |
| `permissions`, `photon_ws` | permission manifest, the live-update socket paths and the host router hook |

`app/` draws these decisions with Leptos and Orbital, calls the server functions,
and converts what the library does not hold (floating-point values, JSON payloads).
`tests/` exercises the library on concrete values.
