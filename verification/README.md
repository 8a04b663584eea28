# brydz_core

Core rules of contract bridge, verified with Verus.

- `src/player.rs`, `src/cards.rs`, `src/card_set.rs`, `src/deck.rs`: seats,
  partnerships and roles; suits, figures, cards and trumps; sets of cards; decks.
- `src/bidding/`: bids and their order, calls, the auction (who declares, which
  calls are legal, when it ends) and a parser for bids.
- `src/contract/`: contract parameters, tricks and their winners, the play of a
  contract (turn order, used cards, suits a seat has shown it lacks, tricks won).
- `src/deal.rs`: dealing cards to the four seats.
- `src/state/`: the play as a game: actions and updates, the environment's view
  of the table, the seats' information sets and their numeric encodings.

`app/` builds the floating-point tensors from the integer encodings and gives
the error types readable messages.
