# shop

A small shop's inventory and sales records, verified with Verus.

- `src/model.rs`: items, sales and the stored data; the mathematical state
  `ShopState` and the spec of every operation on it.
- `src/inventory.rs`: the operations (add, find, sell several units with a
  sale record, sell one unit, edit, delete), each proved against its spec.
- `src/laws.rs`: properties that hold across operations (ids stay distinct
  and fresh, sales conserve stock and are recorded, sales are never lost,
  deleted items are gone, edited items are found).
- `src/text.rs`, `src/console.rs`, `src/upload.rs`: the rules of the
  maintenance console (menu, prompts, defaults, confirmation, number input)
  and of image uploads (which files are accepted, where they are stored,
  and what the upload handler does after each step).
- `src/session.rs`: the maintenance console as a step function from state
  and event to next state and outputs, proved against its transition spec.
- `src/listing.rs`: the item table's lines (decimal numbers, column
  padding).
- `src/clock.rs`: the time stamp of sales.
- `app/`: the web service (axum), its earlier single-unit variant, the
  console's terminal loop, and the bincode files they read and write.
