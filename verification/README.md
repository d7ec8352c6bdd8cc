# dpsa4fl-janus-tasks

Task provisioning for federated-learning training sessions on a pair of DAP
aggregators (a leader and a helper), with its logic verified by Verus.

- `src/` is the verified library:
  - `messages.rs`: session identifiers (decimal text, two-byte wire codec) and
    the messages exchanged with the aggregators' task servers;
  - `fixed.rs`: fixed-point numbers held by their bit patterns, their widths
    and scale factors;
  - `hpke.rs`: HPKE configurations and key pairs, and the registry that keeps
    one key pair per configuration identifier;
  - `provisioner.rs`: the task server's sessions, their creation and end, the
    task that starting a round provisions;
  - `janus_tasks_client.rs`: the client's decisions while creating sessions
    and starting rounds on both aggregators, and the collection interval;
  - `laws.rs`: properties that relate several functions, or client and server;
  - `outside.rs`: the trusted calls into other crates.
- `app/` is the unverified shell: HTTP traffic, the warp server, the datastore,
  JSON forms of the messages, and float-to-fixed conversion.
- `tests/` runs the library on concrete values.
