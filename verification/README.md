# umlautkey

Types German umlauts on an English keyboard layout: `ae`, `oe`, `ue` become
`ä`, `ö`, `ü`, `ss` becomes `ß`, a repeated `e` or `s` undoes the
composition, and `Shift + 4` types `€`.

- `src/` is the composition engine, with machine-checked contracts and proofs:
  - `de/rules.rs`: the table of trigger keys;
  - `de/methods.rs`: the incremental buffer and the model (`step`, `run`)
    its contracts are stated over;
  - `de/laws.rs`: what typing sequences of keys does;
  - `platform/`: key codes of macOS and Windows, and the key-down decisions
    (what the raw-key tracker becomes, and whether the typed word is replaced);
  - `text.rs`: the `std` string and character operations used, with their
    contracts.
- `app/` is the program around it: the macOS menu-bar item and event tap,
  and the Windows keyboard hook, which perform the decisions of the library.
