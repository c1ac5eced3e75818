# safrimba

A rotating savings and credit association (a tontine or likelemba): members
pay a fixed contribution every cycle, and each cycle one scheduled member
receives the pot together with the collected penalties.

- `src/` is the verified library. `model.rs` states the group's rules as a
  transition on a mathematical view of the state; `contract.rs` implements
  creation, every request and every query and proves them equal to those
  rules; `laws.rs` proves properties that hold across requests; `storage.rs`
  builds the storage keys and stored records; `keyed_map.rs` is the ordered
  map with distinct keys that the state keeps profiles, strikes and
  payments in.
- `app/` is the host side: entry points, storage access, address
  validation by the host, and the JSON forms of messages and replies.
- `tests/` exercises the library on concrete groups.
