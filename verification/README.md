# crdb-harness: Test Harness for CockroachDB

A test harness for CockroachDB: it starts a single-node database for the time of
a test, and downloads the binary of one particular CockroachDB version.

- `src/` is the harness itself, verified with Verus: which command is run and how it
  is reported, the steps of a start, of a cleanup and of a download, the way from
  the listen URL that CockroachDB reports to a client configuration, and the error
  messages of its own decisions.
- `app/` runs it: processes, files, signals and connections.
- `tests/` holds the tests of the library.

The files `tools/cockroachdb_version` and `tools/cockroachdb_checksums` name the
version and list the checksums of its archives. The binary is expected under the
directory that the variable `OUT_DIR` names.
