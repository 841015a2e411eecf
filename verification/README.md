# chat_backend

The REST side of a chat server, with its rules verified by Verus.

`src/` is the verified library. It does no input or output:

- `path`, `text` and `routes` find what a request path leads to: an endpoint with its ids, and the
  token, rate limit, method and body that its route asks for.
- `admission` and `limiter` put a request through those checks, in that order. The rate limit is
  kept by the `governor` crate; what is proved of it holds for every reading of its clock.
- `requests` takes a request from its path to the first step of its handler. Its types keep the
  order: no handler starts before the checks have been passed.
- `messages`, `users`, `guilds`, `channels` and `members` hold the handlers. Each is a state
  machine that asks for one action at a time (`effects`) and decides on what came of it; `flow`
  and `handlers` tie them together.
- `reply` and `secret` hold what a request is answered, and the session token on its way there,
  which the `secrecy` crate keeps out of sight.
- `cors` is the policy for scripts of other origins.
- `laws` states what holds of every handler from its first step to its answer, and `stored` what
  one request finds of what another has written.

`app/` is the server around it: warp filters, JSON, signals, and a store that keeps everything in
memory.
