# pumpkin_net

The parts of a game server's network code that stand between it and strangers, verified with Verus:

- `rate_limiter`: counts requests by IP address in windows of time, and blocks an address that
  reaches the limit. `rate_limiter_laws` states what holds over any number of requests.
- `bungeecord`: logins that a proxy forwards, and the list of proxies that may.
- `authentication`: the session of a player at the authentication service, the URLs of player
  textures, and the keys of the service. `login_laws` states what holds of logins at large.
- `rcon` and `rcon_client`: the remote console as two machines that take events and give actions.
  `rcon_laws` states what holds over any number of steps.
- `key_store`: the server's RSA key pair, and the digest of a login. `digest_laws` states what holds
  of digests as text.

`ip`, `text`, `profile`, `clock` and `callback` are what these are built on. `outside` holds the
calls into other crates, each with the claim that is taken as given.

`app/` puts sockets, locks, requests and JSON around the library.
