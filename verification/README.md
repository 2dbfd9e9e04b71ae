# inference_router

The decisions of an edge inference router and of its workers, verified with Verus.

Clients ask the router for inference. The router looks for a worker that was seen recently, hands
the work to the workers' queue on a messaging service, and answers with the worker's reply or with a
redirect to a stream of tokens. Workers take work from the queue, have a model runtime generate, and
publish tokens, results and heartbeats.

## Layout

- `src/` is the library. It works on plain values, and all of it is verified but for what `outside.rs`
  takes on trust.
  - `router.rs`, `exchange.rs`: the router's configuration, endpoints and requests, and the course of
    one request for inference as a state machine.
  - `worker.rs`, `setup.rs`, `job.rs`, `generation.rs`: the worker's configuration and requests, its
    start and the course of one work item as state machines, and the model's output cut into lines.
  - `presence.rs`: heartbeats and the choice of a worker.
  - `names.rs`, `queue.rs`, `web.rs`, `json.rs`, `text.rs`, `clock.rs`, `ids.rs`: what the others are
    made of.
  - `*_laws.rs`: what holds of whole runs and across modules.
  - `outside.rs`: everything that is taken from std and other crates on trust.
- `tests/` runs the library.
- `app/` is the worker program and the router component: command line, HTTP, key-value store and
  `serde`. It performs what the library decides.

## Running

The router reads the variables `tenant_bearer`, `substrate_base`, `presence_max_age_secs` and
`reqres_poll_secs`. The worker takes `--bearer`, `--substrate-base`, `--model`, `--ollama-base`,
`--region` and `--heartbeat-secs`, or the environment variables `TENANT_BEARER`, `SUBSTRATE_BASE`,
`MODEL`, `OLLAMA_BASE`, `REGION` and `HEARTBEAT_SECS`. Without a bearer it looks for
`../.tenant-bearer` and `.tenant-bearer`.
