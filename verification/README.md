# rss_reader

A self-hosted RSS reader server: it subscribes to feeds, fetches them on a
schedule, stores their articles in PostgreSQL and serves them, with a cached
copy of each article's page and of its images, to a web front end.

## Layout

- `src/` is the verified library, checked by Verus. It holds what the server
  decides: how a feed document becomes stored articles and an article's
  identity, when a feed is due for a fetch, which articles are new, how the
  SQL of the listings is written, how unread counts roll up the folder tree,
  how HTML is reduced to text, how image-proxy addresses are decoded,
  which hosts are reached through the proxy, and how request paths name the
  embedded front-end files. Calls into `scraper`, `url`, `md5` and `base64`
  stand behind small trusted wrappers whose contracts say what the
  library relies on.
- `tests/` runs the library on concrete values.
- `app/` is the server itself: configuration, the HTTP routes (`axum`), the
  PostgreSQL store, the HTTP client (`reqwest`), the feed parser (`feed-rs`,
  which can panic on some documents) and the periodic fetch loop.
  It calls the library for every decision and keeps only input and output.
