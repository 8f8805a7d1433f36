# prfitem

Profile items of a proxy client, verified with Verus.

- `src/prfitem.rs` — the data model (items, options, subscription figures, errors),
  merging of options, and the getters.
- `src/enhance.rs` — enhancement items (merge, script, rules, proxies, groups) and
  profile drafts that wait for them.
- `src/sources.rs` — where profiles come from: partial items, local files, responses of
  subscription servers, kept encrypted subscriptions.
- `src/response.rs`, `src/headers.rs`, `src/kv.rs` — what response headers say:
  traffic figures, file names, update intervals, encryption.
- `src/subscription_decrypt.rs` — AES-256-GCM decryption with an HKDF-SHA256 key.
- `src/text.rs` — character-level helpers (trimming, decimal notation).
- `app/` — the asynchronous side: fetching, storing, files, and the serialised form.
