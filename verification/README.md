# ara_kees

Ara-kees is a type D planet for the space-exploration game built on
`common-game`: it generates Oxygen, Hydrogen and Carbon and combines nothing.

- `src/logs.rs` (verified): the structured log records the planet reports —
  sender, receiver, event type, channel and a one-entry payload per kind of
  record — and the check that stops a handler while the AI is switched off.
- `src/planet.rs` (verified): the planet's make-up (type, generation rules,
  combination rules).
- `app/`: stamps records with the time and writes them through the `log`
  crate, and hands the make-up to `common_game`'s `Planet::new`.
