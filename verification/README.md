# watch_core

The verified core of a smartwatch firmware: durable user settings and their
two-slot flash record format, the T9 on-screen keyboard, and the settings,
stopwatch and countdown-timer applications.

- `src/` is checked by Verus. `product::settings` holds the settings value,
  the record encoding and checksum, the choice of the newest slot and the
  save plan. Its load and save proofs are stated over a model of the two
  slots: the record bytes that start slot A and slot B. `load_from_records`
  and `plan_save_over_records` work on those bytes, and the lemmas show that
  a load after a save returns the saved settings, that a save interrupted at
  any point keeps the previous settings or yields the new ones, and that a
  record with one damaged byte is rejected, except where the damage turns the
  version byte into 1 (an older record layout that is still read).
  `ui::t9_keyboard` and `apps` state each screen's reaction to taps and time,
  and what it shows in words, as a function of its state.
- `app/` draws the screens with embedded-graphics. Its `FlashSettingsStore`
  is unverified glue over embedded-storage: it only reads the two records,
  calls `load_from_records` or `plan_save_over_records`, and performs the
  erase and write that the plan names. That the flash behaves as memory is
  assumed, not proved.
- `tests/` exercises both on concrete values.
