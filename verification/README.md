# spider_worker

The decision logic of a lead-generation worker, verified with Verus.

- `src/config.rs`: loading the settings from the values of two environment variables.
- `src/taskstate.rs`: the queues of industries and locations a task steps through
  (`TaskState::next_search`), progress reports (`Checkable::check`), the company
  records stored for places found, and the request that marks a task finished.
- `src/cmd.rs`: the commands the worker accepts and their effect on its task slot.
- `src/cycle.rs`: one work cycle as a state machine (`TaskState::cycle_step`): each
  phase names the outside work to do, each event reports what came of it.
- `src/places.rs`: the paging of a place search and the filtering of its results.
- `src/prospects.rs`: choosing the model's arguments and gathering prospects.
- `src/stream_log.rs`: framing log lines as server-sent events.

`app/` holds the program around it: the HTTP server, the database, HTTP and model
calls, channels and locks, and the wire types with their serde derives.
