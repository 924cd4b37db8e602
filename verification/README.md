# linkerd_app_outbound

The decision logic of the outbound side of a service-mesh proxy, verified with Verus.

- `src/` is the library. It works on plain values: the caller hands in what it observed (responses,
  errors, the time, the answers of discovery) and carries out what it is told to do.
  - `breaker` decides when an endpoint gets no more traffic: runs of failures, success rates over a
    window, and the hints of servers on when to come back.
  - `route` reads retry policies and deadlines from requests, applies filters, enforces deadlines
    and decides which requests are sent again.
  - `logical` turns policies and service profiles into routes over concrete backends.
  - `discover` and `ingress` decide what is done with the answers of discovery.
  - `endpoint`, `detect`, `require_id_header` and `proxy_error` decide how peers are spoken to.
  - `errors`, `rescue` and `labels` say what errors become: responses and metrics.
- `tests/` runs the library on concrete values.
- `app/` is the runtime around the library: tasks, channels, clocks and metrics.
