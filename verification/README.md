# workday_sftp_rest_server

A small HTTP service that serves the HR exports dropped as CSV files (employees and
positions), feeds PaperCut with print accounts, imports the yearly HR training course
into Canvas, proxies paginated Canvas API calls, and mails a report of each request.

The decisions of the service are written in Verus and proved against their contracts:

- `src/utils/csv.rs`: which dated exports to keep and which to delete, file names, and
  CSV records; `src/utils/csv/row_verifier.rs`: the check that every row of an upload
  names the same columns as the first one.
- `src/csv_row_definitions.rs`, `src/employees.rs`: the HR export rows, lookups over
  them, the employee check and the joined employee export.
- `src/canvas/`: SIS import rows and URLs, the polling of an import, the HR training
  course and its users and enrollments, and the paginated proxy: its first URL, the
  reading of each page into records, the joining of pages and of unrolled calls, and
  the reading of the `UNROLL` parameter.
- `src/papercut.rs`: the accounts file for PaperCut.
- `src/utils/email.rs`, `src/utils/mod.rs`, `src/banner/`, `src/logging.rs`,
  `src/server.rs`: report recipients and texts, the request token, Banner settings,
  log levels, ports and the HTTPS redirect host.

`app/` holds the program around it: the axum routes, file and network I/O, the
Oracle pool, SMTP and FTP, and the serde forms of the library's types.
