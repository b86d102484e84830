# tunnelit-agent

Agent for the tunnelit relay: it forwards a local TCP or UDP port to the
internet through a WebSocket relay.

- `src/` — the verified library:
  - `protocol.rs` — messages exchanged with the relay;
  - `config.rs` — saved settings, where they live, and how the token and relay are chosen;
  - `local_proxy.rs` — registry of proxied local connections, local address,
    outbound data frames;
  - `tunnel_client.rs` — the session: first message and the reaction to each
    relay frame;
  - `payload.rs` — base64 payloads (through the `base64` crate);
  - `channel.rs` — sending bytes on a tokio channel, with a receipt of each send;
  - `text.rs` — white space, trimming, decimal rendering.
- `app/` — the program: command line, settings file, WebSocket and socket I/O,
  JSON encoding of the messages.
- `tests/` — tests of the library.

Usage:

```bash
tunnelit-agent --relay wss://ws.ezbchat.fun/ws --local 25565 --proto tcp [--remote-port 25565] [--subdomain name] [--token TOKEN]
```
