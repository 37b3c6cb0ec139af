# proxydetox

The decisions of a proxy server that finds its upstream proxies with a PAC script, verified with
Verus.

- `src/` is the library. It reads URIs, header fields and the results of PAC scripts, decides what
  becomes of a request, drives the evaluation of a PAC script and the `Negotiate` authentication,
  and states what each function does in its contract.
- `tests/` runs the library on concrete values.
- `app/` runs the decisions: sockets with hyper, PAC scripts with Duktape, tokens with the GSS-API.

What the library takes from the crates `http` and `base64`, and the `Debug` text of the status page,
stands behind functions whose contracts are trusted; each says so in its documentation.
