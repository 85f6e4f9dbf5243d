# testudo-raas

The verified core of a gRPC position-sizing service.

- `src/boundary.rs`: decoding of the portfolio (32 bytes) and order details
  (16 bytes), each a run of little-endian IEEE 754 binary64 words, and of a
  whole request, with the round-trip laws of the wire format.
- `src/risk.rs`: `RiskError`, its messages and gRPC status codes, the
  approval decision on the final size, and the rejection reason of a response.
- `src/service.rs`: `RaasRiskService` and the laws on how a request is answered.
- `app/`: the gRPC server and the sizing models (Kelly, fixed fractional,
  volatility-adjusted), which compute in `f64` and so stand outside Verus.
