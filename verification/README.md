# databend_ops

Two pieces of a data warehouse, with their decisions proved in Verus:

* the interpreter that refreshes an aggregating index, and
* the suite of checks for implementations of the background API, which keeps tasks and jobs.

Both alternate calls to the outside with decisions. The library (`src/`) makes the decisions: it
says which call comes next and what to make of the answer. The other side (`app/`) performs the
calls and hands the answers back.

| module | what it holds |
| --- | --- |
| `refresh_plan` | what a refresh is given: the query, its columns, its errors |
| `physical_plan` | the shape of a physical plan and the sources it reads |
| `schema` | data schemas, lookup by name, projections |
| `refresh` | the interpreter, and its runs: actions, events and steps |
| `refresh_laws` | when a refresh completes, what it does on the way, what its errors mean |
| `background` | tasks and jobs, and the requests and replies about them |
| `task_run`, `job_run`, `suite` | the checks, request by request |
| `check` | what can be wrong with a reply |
| `background_laws` | which replies pass the checks, what the clock decides, and that a faithful store passes |
| `timestamp` | points in time; the clock and the calendar of `chrono` |
| `text` | decimal numerals, ASCII case |
