# tokio-modbus (verified core)

Modbus RTU and TCP: protocol data units, frames, codecs and the decisions of
clients and servers, with contracts proved by Verus.

- `src/` — the verified library
  - `frame` — requests, responses, exceptions, function codes and the RTU,
    TCP and TLS frames, with the checks a client makes of a response
  - `codec` — the byte form of PDUs (encoding, decoding), RTU framing with
    CRC-16 and resynchronisation, TCP (MBAP) framing; `codec::laws` holds the
    round-trip laws
  - `pdu` — a compact message model with owned data, its byte form and the
    response checks of a simple client
  - `service`, `server`, `client` — transaction ids, request headers,
    request filtering, answers of a server and the values a reader or writer
    hands out
  - `slave`, `device` — slave addresses, their text form and parsing
  - `buffers`, `error` — the trusted declarations of `bytes`, `byteorder`
    and `std::io` items the library uses
- `app/` — the asynchronous clients and servers on tokio, the `tokio_util`
  codecs and the error types with `Display`
- `tests/` — tests of the library
