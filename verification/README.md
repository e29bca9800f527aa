# peaq_runtime

The fee, staking-reward and currency-routing logic of the peaq runtime, written in Verus and
verified against its contracts.

- `src/` is the verified library. The pallets and currencies that the logic consults are
  handed in as closures, so that every decision (which currency pays, what is refunded, which
  delegators are rewarded and with which share) is made, and proved, in the library.
  `sp_arithmetic` computes the `Perbill` and `Perquintill` fractions behind two trusted
  wrappers in `src/per_thing.rs`.
- `tests/` runs the library on concrete values.
- `app/` holds the runtime's implementations of the Substrate, orml and Zenlink traits, which
  convert the runtime's types and call the library.
