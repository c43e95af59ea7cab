# tiny_monitor

The logic core of a floating fleet-health widget, verified with Verus: the
aggregator's `/state` snapshot model, the health vocabulary and its colours,
the glance view painted every tick, and the endpoint resolution through
delightd.

| Path                  | Contents                                                        |
| --------------------- | --------------------------------------------------------------- |
| `src/model.rs`        | `Health` (parse, severity, label) and the snapshot types         |
| `src/ordered_map.rs`  | key-ordered map used for per-service / per-project entries      |
| `src/render.rs`       | health → colour, fleet rollup, `RenderModel` (rows, runway)      |
| `src/panel.rs`        | what each fixed label of the window shows for a view            |
| `src/fetch.rs`        | configuration defaults and settings, poll failure texts         |
| `src/resolve.rs`      | delightd resolve URL, `/state` URL of a resolved service         |
| `src/text.rs`         | characters, code-point order, decimal rendering and parsing     |
| `app/`                | HTTP polling, JSON decoding, environment, and the macOS window  |
