# helix_gateway

An HTTP-to-gRPC gateway: it serves `POST /{query}` and `GET /health`, forwards each
query to a backend gRPC service, buffers requests while the backend is unavailable,
and computes embeddings of query parameters where a query asks for them. The crate
also holds the backend side: route tables of registered handlers and the answers to
queries.

## Layout

- `src/` is the library, verified with Verus. It holds the request buffer (a bounded
  LIFO stack of waiting requests, kept on the `lockfree` crate's stack; its operations
  take the buffer by `&mut`, so the server shares it behind a mutex), the route tables of the backend service, the routing between
  a primary and a read replica, configuration defaults and the parsing of environment
  values, the error-to-HTTP-status mapping, the query definitions of
  `introspect.json`, and the decisions of the HTTP handlers as step functions: each
  takes a handler's state and the outcome of the last piece of outside work and gives
  the next state and the next piece of work.
- `app/` performs that outside work: the axum server, the tonic transport and its
  message encoding, environment variables, Redis, embedding providers, JSON
  (de)serialization and floating-point embedding vectors.
- `tests/` exercises the library on concrete values.

## Configuration

All settings are configured via environment variables with defaults:

| Variable | Default |
|----------|---------|
| `LISTEN_ADDR` | `0.0.0.0:8080` |
| `REQUEST_TIMEOUT_MS` | `30000` |
| `BACKEND_ADDR` | `http://127.0.0.1:50051` |
| `READ_BACKEND_ADDR` | none |
| `GRPC_CONNECT_TIMEOUT_MS` | `5000` |
| `GRPC_REQUEST_TIMEOUT_MS` | `30000` |
| `GRPC_TCP_KEEPALIVE_SECS` | `60` |
| `GRPC_HTTP2_KEEPALIVE_INTERVAL_SECS` | `60` |
| `GRPC_HTTP2_KEEPALIVE_TIMEOUT_SECS` | `20` |
| `GRPC_HTTP2_ADAPTIVE_WINDOW` | `true` |
| `REDIS_URL` | `redis://127.0.0.1:6379` |
| `MCP_TTL_SECS` | `3600` |
