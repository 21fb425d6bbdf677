# database_test

A consistency test tool for PostgreSQL databases. Test suites, one YAML file each,
list queries together with what their results must satisfy: a number of rows, and
conditions, ranges or lists of accepted values for columns. Suites and cases can be
skipped by a query of their own. The program exits with 0 when every case passed or
was skipped, 1 when a case failed, and 2 when the run could not start.

## Layout

- `src/` is the verified library, checked by Verus:
  - `text` — decimal rendering, lexicographic comparison, search, split and join;
  - `dto` — suites, cases, skip clauses and column expectations;
  - `query` — checking a query's rows against a case, with exact failure messages;
  - `messages`, `bus`, `worker` — the work handed to database workers and their replies;
  - `application` — the test run as a state machine: what each reply reports, what
    work follows, when the run is over, and the laws of a finished run;
  - `output` — counters, report events, and their plain and colored rendering;
  - `config`, `validate`, `error` — command-line values and errors;
  - `filter`, `read` — which suite files are read and which suites are kept.
- `app/` is the program around it: command-line parsing, reading files, the YAML
  format, database connections and worker threads, and the terminal.
- `tests/` runs the library on concrete values.
