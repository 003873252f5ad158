# warpgate_tunnel

The protocol logic of Warpgate's RabbitMQ and raw TCP protocol servers and of
its SSH and Kubernetes tunnel clients, verified with Verus.

- `src/` is the verified library. Each protocol decision is a function with a
  contract: the RabbitMQ handshake on both sides (`session`, `client`), SASL
  `PLAIN` (`sasl`), tuning (`tune`), frame-size checks and the frames
  Warpgate sends (`frames`), decoding and encoding them over `amq-protocol`'s
  codec (`wire`), the idle-timeout policy (`idle`) and relay decisions
  (`relay`); SSH jump-chain resolution (`ssh_chain`), the legacy-algorithm
  allowlist (`ssh_config`), host-key verification, key selection and hop
  authentication (`ssh_auth`);
  Kubernetes target lookup, API headers, Service backend selection and the
  port-forward URL and framing (`kubernetes`); raw TCP listener planning and
  backend TLS (`tcp`). Laws that span calls are public proof functions named
  `law_*`.
- `app/` performs the I/O around it: sockets, TLS, the SSH client (`russh`),
  the Kubernetes API (`reqwest`),
  and Warpgate's configuration, database and authorization services.
- `tests/` runs the library on concrete inputs.
