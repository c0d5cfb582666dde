# bacnet_client

The request-sizing, segmentation, routed-path, transaction-timer, dispatch
and COV-subscription logic of a BACnet client, verified with Verus.

- `src/` is the verified library. Each module states its behaviour in
  `requires`/`ensures` over mathematical models (`Seq`, `Map`, spec
  functions) and proves it; properties that span several calls are public
  proof functions (`lemma_*`).
- `tests/` runs the library on concrete inputs.
- `app/` holds async drivers (tokio) that run the library's decisions over a
  network link, a transaction state machine and a SubscribeCOV sender given
  as traits.

Time is a millisecond reading supplied by the caller; transaction owners are
opaque `u64` tokens.
