# pockets_for_me_api

The logic of a small item catalogue service, verified with Verus.

- `src/types` — the documents and requests: a submitted `ItemClient`, the
  stored `ItemElastic` (for phones and tablets in `items`, for garments in
  `garments`), category names, replies and the index's suggestion replies.
- `src/routes/items.rs` — the decisions of the item endpoints (create, get,
  search) and the composition of search suggestions.
- `src/admin/elastic.rs` — the steps that make sure the items index exists
  with its mapping, or is deleted.
- `src/generate` — fresh document identifiers (random UUIDs).
- `src/constants` — the index address.
- `app/` — the Rocket server and the Elasticsearch calls around the library.
