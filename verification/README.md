# veracruz

The logic of the Veracruz platform pieces that run around its enclaves,
verified with Verus:

- `src/std_platform_services.rs`, `src/tz_platform_services.rs`,
  `src/platform_result.rs`: the `getrandom` and real-time platform services.
- `src/nitro_enclave.rs`: starting and stopping a Nitro enclave with
  `nitro-cli`, reading its report, and the decisions of the host's loop that
  serves the enclave's outgoing calls.
- `src/mc_nitro.rs`: the enclave's request/reply protocol with the host and
  the steps of its attestation.
- `src/freestanding.rs`: the freestanding execution engine's command line,
  virtual file system paths and capability table.
- `src/server_test.rs`: the client's checks of a Veracruz server (policy
  hash, runtime-manager hash) and the scheduling of provisioned streams.
- `src/codec.rs`: SHA-256, hexadecimal and UTF-8, from `ring`, `hex` and std.

`app/` holds the processes, sockets, threads, files, command-line parsing
and serialization around the library; `tests/` runs the library on concrete
values.
