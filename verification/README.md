# llm-wake-proxy

A proxy that keeps the host of a `llama.cpp` model server asleep while nobody needs it, and wakes it
on demand. Clients see an OpenAI-compatible API. A helper on the host starts the model server and
keeps the host awake while it is used.

The decisions are a Verus library; the sockets, processes and clocks around them are not.

- `src/` is the library. Every function states what it returns, and Verus proves it.
- `tests/` runs the library on examples.
- `app/` is the program: the proxy, or the helper if its name ends in `helper`.

## How it works

A request is checked (`app`), the backend is made ready (`lifecycle`), the request waits for a slot
(`scheduler`), is forwarded (`forward`), and its outcome becomes an answer (`orchestrate`). The
library never blocks: where something has to happen outside, a method returns the next step, the
program carries it out and hands the result to the next method.

The lifecycle of a backend is `cold`, `warming`, `ready` or `error`. The first request for a backend
that is not ready starts a bootstrap: SSH is probed, the host is woken if it does not answer, the
helper is asked to start the model server, and the tunnel is opened. Requests that come meanwhile
wait for the same bootstrap.

The helper works in the same way: `steps` says what systemd and the model server are asked next, and
`helper` asks them.

## Trusted parts

Verus takes the following on faith. Each is a small function whose comment says what is claimed.

- `json`: `serde_json` reading and printing documents, and access to their parts
- `text`: decoding UTF-8 and appending a character with `std`
- `config`: `Duration::from_secs`
- `scheduler`: `tokio::sync::Semaphore`

Proved properties that span several functions are public proof functions at the end of each module.

## Configuration

| Variable | Default |
|----------|---------|
| `PORT` | `3000` |
| `MODEL_ALIAS`, `MODEL_OWNED_BY` | `llm-wake-proxy` |
| `MODEL_PROVIDER_ID` | `llama.cpp` |
| `EMBEDDINGS_ENABLED` | `true` |
| `EMBEDDINGS_MODEL_PATH` | none: embeddings share the model server of chat |
| `EMBEDDINGS_TUNNEL_LOCAL_PORT`, `EMBEDDINGS_LLAMA_SERVER_PORT` | `18081`, `8081` |
| `WARM_MAX_ACTIVE_REQUESTS`, `WARM_MAX_QUEUED_REQUESTS` | `2`, `16` |
| `WARM_QUEUE_TIMEOUT_SECS` | `30` |
| `COLD_START_MAX_WAITING` | `32` |
| `SSH_HOST`, `SSH_USER`, `MODEL_PATH`, `WOL_MAC_ADDRESS` | required |
| `SSH_PORT`, `SSH_KEY_PATH` | `22`, `~/.ssh/ssh-privatekey` |
| `HELPER_PATH` | `/usr/local/bin/llm-wake-proxy-helper` |
| `TUNNEL_LOCAL_PORT`, `LLAMA_SERVER_PORT` | `18080`, `8080` |
| `WOL_BROADCAST_ADDR`, `WOL_PORT` | `255.255.255.255`, `9` |
| `COLD_WAIT_BUDGET_SECS`, `HARD_BOOT_DEADLINE_SECS` | `90`, `300` |
| `BOOTSTRAP_POLL_INTERVAL_MS`, `RETRY_AFTER_SECS` | `1000`, `10` |
