# sensirion_sgp4x

Driver logic for the Sensirion SGP40 (VOC) and SGP41 (VOC + NOx) gas sensors, verified with Verus.

- `src/` — the verified library: the command tables of both variants (`command.rs`, `lib.rs`),
  the exchanges each driver operation performs (`blocking.rs`, `asynchronous.rs`), and the
  decoding of the checksummed answer words (`measurement.rs`, `words.rs`).
- `app/` — the bus side: performs the exchanges over I2C through `sensirion_core` and converts
  temperature and humidity into argument ticks.
- `tests/` — runtime tests of the library.
