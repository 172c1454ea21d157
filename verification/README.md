# bihelix

Verified core of the BiHelix RGB wallet command-line tool.

- `src/` — the library, verified with Verus:
  - `text` — character-level helpers (pattern replacement, hex and decimal
    rendering, alignment);
  - `keys` — a BIP39 mnemonic phrase from random entropy (through the
    `bip39` crate) and the BIP32 master key of its seed (through the
    `bitcoin` crate), descriptor type choice, RGB form of an account
    descriptor;
  - `stock` — how the RGB stock is kept in its database and loaded back;
  - `network` — networks, Electrum servers, resolver endpoints, broadcast
    routes;
  - `wallet` — the wallet model: address, unspent outputs, stock records,
    invoices, transfer parameters;
  - `accept` — the bounded retry of accepting a transfer;
  - `command` — the `key` and `rgb` subcommands and their decisions;
  - `report` — the text of the contract state report and of a sync.
- `app/` — the command-line program: argument parsing, the RGB runtime,
  Electrum, the stock database and files.
- `tests/` — tests of the library.
