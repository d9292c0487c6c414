# nft_mint

A verified NFT sale contract for a Secret Network style chain, written in Verus.

Buyers pay through a SNIP-20 token contract; an accepted payment mints one
free slot of a metadata pool, chosen from a random draw, on a SNIP-721
contract and splits the payment among reward wallets.  The draw is seeded
from the operating system's source of randomness; where there is none (as on
`wasm32-unknown-unknown`), a payment is refused with "Randomness unavailable",
and `contract::mint_nft_at` serves a caller that supplies the draw itself.  An admin configures prices, supply, whitelist, sale
flags and the metadata pool.

- `src/` is the verified library: the storage model (`state`), the message
  handlers and queries with their contracts (`contract`), and the laws that
  relate them (`laws`).
- `app/` puts the library on the chain: JSON messages, chain storage, and the
  SNIP-721 / SNIP-20 messages built from the library's answers.
- `tests/` runs the library on concrete scenarios.
