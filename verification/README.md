# my-atmosphere

An AT Protocol app dashboard: log in with an AT Protocol handle through
OAuth (PAR, PKCE and DPoP), scan the repository on your PDS, and see its
collections grouped by namespace prefix into app cards.

- `src/` — the verified library: NSID prefixes and grouping (`nsid`,
  `repo`), the server's OAuth steps and their stores (`oauth`, `store`,
  `identity`, `keys`, `jose`, `encoding`), and the client's session,
  callback and page decisions (`session`, `callback`, `views`, `types`).
- `app/` — the Dioxus application: pages, local storage, and the network
  requests that run between the library's steps.
- `tests/` — tests of the library on concrete values.

## Configuration

- `HOST_DOMAIN`, or else `RAILWAY_PUBLIC_DOMAIN`: the domain the app is
  served at. The base URL is then `https://` and that domain, the redirect
  URI is `{base}/oauth/callback` and the client identifier is
  `{base}/oauth/client-metadata.json`, whose document the library builds
  (`oauth::client_metadata`) with the signing key's public JWK. With
  neither set, the base URL is
  `http://127.0.0.1:8080` and a loopback client identifier is used.
- `OAUTH_KEY_SEED`: 64 hex digits (32 bytes) that fix the P-256 signing key
  shared by every authorization, so that it survives restarts. Without a
  valid seed a random signing key is made at startup. Each authorization
  gets a fresh DPoP key either way.
