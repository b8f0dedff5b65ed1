# wxc_common

The request layer of the MXC container executor, verified with Verus: a
JSON request (base64 on the command line, or a configuration file's text)
becomes a one-shot `ExecutionRequest` or a state-aware
`ParsedStateAwareRequest`, with every default, legacy alias and
cross-field rule stated in the contracts.

Layout of `src/`:

- `json`, `raw`: the JSON document model and the field-by-field reading of
  a document into raw sections;
- `config_parser`: backend selection, the one-backend-section rule, the
  policy sections, and the loaders; `network`, `schema`, `experimental`,
  `state_aware`: the sections and envelopes with rules of their own;
- `models`, `errors`: the request, policy and response types, the errors,
  and the diagnostic log;
- `telemetry`: failure categories, message scrubbing, event records;
- `driver`, `lxc_driver`, `e2e`: what the executors and the end-to-end
  harness decide and report; `runner`: which script runner the Windows
  executor builds, and the `--experimental` gate (`lxc_driver` does the
  same for `lxc-exec`);
- `laws`: properties of every accepted request, of request routing and of
  runner selection;
- `text`, `encoding`: string and base64 helpers.

`app/` holds the `wxc-exec` and `lxc-exec` command lines, file reading, the event-writer
shim and the process-running helpers of the end-to-end harness.
