# environmentd

The decisions of a daemon that manages a single environment, verified with Verus.

- `src/environment`: what the options of the command line come to. Starting up
  goes in three stages (connections, orchestrator, server), and each stage settles
  its part or says what is wrong with the options.
- `src/aws`: AWS connections. Loading access keys, assuming a customer's role and
  validating a connection go step by step; a step names what to ask of the secret
  store or of AWS, and the next function takes the reply. The laws in
  `src/aws/laws.rs` say what the steps come to: an assumed role is always
  presented the external ID of its own environment and connection, and a
  connection is valid only if its role cannot be assumed without one.
- `src/rusage.rs`: which gauges show the resources that the process has used.
- `src/global_id.rs`, `src/proto.rs`, `src/string_map.rs`, `src/text.rs`,
  `src/base64url.rs`: what the others are made of.
- `src/outside.rs`: the calls that leave the crate, with what is relied upon.
- `app`: the program around the library, which does the input and output.
