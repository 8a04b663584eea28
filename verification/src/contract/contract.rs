use vstd::prelude::*;
use crate::card_set::{CardSet, lemma_size_insert};
use crate::cards::{Card, Suit, Trump};
use crate::contract::spec::ContractParametersGen;
use crate::contract::suit_exhaust::SuitExhaust;
use crate::contract::trick::{Trick, seat_of};
use crate::contract::trick_solver::{SmartTrickSolver, leader_under};
use crate::error::{ContractError, Mismatch};
use crate::player::{Axis, PlayRole, Side, role_at, role_index, side_at, side_axis, side_distance, side_index};

verus! {

/// Number of tricks in a deal.
pub const QUARTER_SIZE: usize = 13;

/// Seat that leads the next trick: the whist for the first trick, then the
/// winner of the last completed trick.
pub open spec fn first_leader(declarer: Side, winners: Seq<Side>) -> Side {
    if winners.len() == 0 {
        side_at(side_index(declarer) + 1)
    } else {
        winners.last()
    }
}

/// Number of tricks among `winners` that were taken by the partnership `axis`.
pub open spec fn tricks_of_axis(winners: Seq<Side>, axis: Axis) -> nat
    decreases winners.len(),
{
    if winners.len() == 0 {
        0
    } else {
        tricks_of_axis(winners.drop_last(), axis) + if side_axis(winners.last()) == axis {
            1nat
        } else {
            0nat
        }
    }
}

/// Number of tricks among `winners` won by `side`.
pub open spec fn tricks_of_side(winners: Seq<Side>, side: Side) -> nat
    decreases winners.len(),
{
    if winners.len() == 0 {
        0
    } else {
        tricks_of_side(winners.drop_last(), side) + if winners.last() == side {
            1nat
        } else {
            0nat
        }
    }
}

/// Position `p` of the played cards, before position `4 * n`, lies in one of
/// the first `n` tricks; from `4 * n` on, in trick `n`.
proof fn lemma_trick_position(p: int, n: int)
    requires
        0 <= n,
        0 <= p,
    ensures
        p < 4 * n ==> 0 <= p / 4 < n && 0 <= p % 4 < 4,
        4 * n <= p < 4 * n + 4 ==> p / 4 == n && p % 4 == p - 4 * n,
{
}

/// When a card joins the current trick, the earlier cards keep their
/// positions and the new one comes last.
proof fn lemma_played_when_current_grows(before: Contract, after: Contract, card: Card)
    requires
        after.tricks_spec() == before.tricks_spec(),
        after.current_spec().cards_spec() == before.current_spec().cards_spec().push(card),
    ensures
        after.played_count() == before.played_count() + 1,
        forall|p: int| 0 <= p < before.played_count() ==> after.played_at(p) == before.played_at(p),
        after.played_at(before.played_count()) == card,
{
}

/// When a card closes the current trick, the earlier cards keep their
/// positions and the new one comes last.
proof fn lemma_played_when_trick_closes(before: Contract, after: Contract, card: Card)
    requires
        before.current_spec().cards_spec().len() == 3,
        after.tricks_spec().len() == before.tricks_spec().len() + 1,
        after.tricks_spec().drop_last() == before.tricks_spec(),
        after.tricks_spec().last().cards_spec() == before.current_spec().cards_spec().push(card),
        after.current_spec().cards_spec().len() == 0,
    ensures
        after.played_count() == before.played_count() + 1,
        forall|p: int| 0 <= p < before.played_count() ==> after.played_at(p) == before.played_at(p),
        after.played_at(before.played_count()) == card,
{
    let n = before.tricks_spec().len() as int;
    assert forall|p: int| 0 <= p < before.played_count() implies after.played_at(p) == before.played_at(p) by {
        lemma_trick_position(p, n);
        if p < 4 * n {
            assert(after.tricks_spec()[p / 4] == before.tricks_spec()[p / 4]);
        }
    }
    lemma_trick_position(before.played_count(), n);
}

/// The played cards stay consistent when one more, unused card is played.
proof fn lemma_played_after_push(before: Contract, after: Contract, card: Card)
    requires
        before.wf(),
        !before.used_spec().has(card),
        forall|c: Card| #[trigger] after.used_spec().has(c) == (before.used_spec().has(c) || c == card),
        after.played_count() == before.played_count() + 1,
        forall|p: int| 0 <= p < before.played_count() ==> after.played_at(p) == before.played_at(p),
        after.played_at(before.played_count()) == card,
        after.registered_spec().len() == before.registered_spec().len() + 1,
        after.used_spec().size() == before.used_spec().size() + 1,
    ensures
        after.cards_consistent(),
{
    assert forall|p: int| 0 <= p < after.played_count() implies after.used_spec().has(#[trigger] after.played_at(p)) by {
        if p < before.played_count() {
            assert(before.used_spec().has(before.played_at(p)));
        }
    }
    assert forall|p: int, q: int|
        0 <= p < q < after.played_count() implies #[trigger] after.played_at(p) != #[trigger] after.played_at(q) by {
        assert(before.used_spec().has(before.played_at(p)));
        if q < before.played_count() {
            assert(before.played_at(p) != before.played_at(q));
        }
    }
}

/// The played cards stay consistent when the last one is taken back.
proof fn lemma_played_after_pop(before: Contract, after: Contract, card: Card)
    requires
        before.wf(),
        after.played_count() + 1 == before.played_count(),
        forall|p: int| 0 <= p < after.played_count() ==> after.played_at(p) == before.played_at(p),
        before.played_at(after.played_count()) == card,
        forall|c: Card| #[trigger] after.used_spec().has(c) == (before.used_spec().has(c) && c != card),
        after.registered_spec().len() + 1 == before.registered_spec().len(),
    ensures
        after.cards_consistent(),
{
    assert(before.used_spec().has(card));
    lemma_size_insert(after.used_spec(), before.used_spec(), card);
    assert forall|p: int| 0 <= p < after.played_count() implies after.used_spec().has(#[trigger] after.played_at(p)) by {
        assert(before.used_spec().has(before.played_at(p)));
        assert(before.played_at(p) != before.played_at(after.played_count()));
    }
    assert forall|p: int, q: int|
        0 <= p < q < after.played_count() implies #[trigger] after.played_at(p) != #[trigger] after.played_at(q) by {
        assert(before.played_at(p) != before.played_at(q));
    }
}

/// The play of a contract: the completed tricks with their winners, the trick
/// in progress, the cards played so far and the suits that seats are known
/// to lack.
#[derive(Debug, Clone)]
pub struct Contract {
    params: ContractParametersGen,
    tricks: Vec<Trick>,
    winners: Vec<Side>,
    current: Trick,
    exhausted: SuitExhaust,
    used: CardSet,
    registered: Vec<bool>,
    solver: SmartTrickSolver,
}

impl Contract {
    pub closed spec fn params_spec(self) -> ContractParametersGen {
        self.params
    }

    pub closed spec fn tricks_spec(self) -> Seq<Trick> {
        self.tricks@
    }

    pub closed spec fn winners_spec(self) -> Seq<Side> {
        self.winners@
    }

    pub closed spec fn current_spec(self) -> Trick {
        self.current
    }

    pub closed spec fn exhausted_spec(self) -> SuitExhaust {
        self.exhausted
    }

    pub closed spec fn used_spec(self) -> CardSet {
        self.used
    }

    /// For each played card, in playing order, whether playing it recorded a
    /// new suit that its seat lacks.
    pub closed spec fn registered_spec(self) -> Seq<bool> {
        self.registered@
    }

    pub closed spec fn solver_trump(self) -> Trump {
        self.solver.trump_of()
    }

    /// Trump of the contract.
    pub open spec fn trump_spec(self) -> Trump {
        self.params_spec().bid_spec().trump_spec()
    }

    pub open spec fn declarer_spec(self) -> Side {
        self.params_spec().declarer_spec()
    }

    pub open spec fn dummy_spec(self) -> Side {
        side_at(side_index(self.declarer_spec()) + 2)
    }

    /// Seat whose turn it is.
    pub open spec fn current_side_spec(self) -> Side {
        self.current_spec().next_seat()
    }

    pub open spec fn is_completed_spec(self) -> bool {
        self.tricks_spec().len() == QUARTER_SIZE
    }

    /// Number of cards played so far.
    pub open spec fn played_count(self) -> int {
        (4 * self.tricks_spec().len() + self.current_spec().cards_spec().len()) as int
    }

    /// The `p`-th card played: those of the completed tricks in order, then
    /// those of the current trick.
    pub open spec fn played_at(self, p: int) -> Card {
        let n = self.tricks_spec().len() as int;
        if p < 4 * n {
            self.tricks_spec()[p / 4].cards_spec()[p % 4]
        } else {
            self.current_spec().cards_spec()[p - 4 * n]
        }
    }

    /// The played cards are all different, all of them are used, the used
    /// cards are as many as the played ones, and the log of recorded suits
    /// has an entry per played card.
    pub closed spec fn cards_consistent(self) -> bool {
        &&& forall|p: int| 0 <= p < self.played_count() ==> self.used_spec().has(#[trigger] self.played_at(p))
        &&& forall|p: int, q: int|
            0 <= p < q < self.played_count() ==> #[trigger] self.played_at(p) != #[trigger] self.played_at(q)
        &&& self.used_spec().size() == self.played_count()
        &&& self.registered_spec().len() == self.played_count()
    }

    /// The state is consistent: every completed trick holds four cards and was
    /// won by the recorded seat; the first trick is led by the whist and each
    /// later one, the current one included, by the winner of the one before;
    /// and the used cards are the played ones, each played once.
    pub open spec fn wf(self) -> bool {
        let cur = self.current_spec();
        &&& self.tricks_spec().len() == self.winners_spec().len()
        &&& self.tricks_spec().len() <= QUARTER_SIZE
        &&& cur.wf()
        &&& cur.cards_spec().len() < 4
        &&& self.is_completed_spec() ==> cur.cards_spec().len() == 0
        &&& cur.first_spec() == first_leader(self.declarer_spec(), self.winners_spec())
        &&& forall|i: int|
            0 <= i < self.tricks_spec().len() ==> {
                &&& (#[trigger] self.tricks_spec()[i]).wf()
                &&& self.tricks_spec()[i].cards_spec().len() == 4
                &&& leader_under(self.tricks_spec()[i], self.trump_spec()) == Some(
                    self.winners_spec()[i],
                )
                &&& self.tricks_spec()[i].first_spec() == first_leader(
                    self.declarer_spec(),
                    self.winners_spec().subrange(0, i),
                )
            }
        &&& self.cards_consistent()
        &&& self.solver_trump() == self.trump_spec()
    }

    /// Why `side` may not play `card` now, if it may not.
    pub open spec fn play_error(self, side: Side, card: Card) -> Option<ContractError> {
        if self.is_completed_spec() {
            Some(ContractError::ContractFull)
        } else if side != self.current_side_spec() {
            Some(
                ContractError::ViolatedOrder(
                    Mismatch { expected: self.current_side_spec(), found: side },
                ),
            )
        } else if self.used_spec().has(card) {
            Some(ContractError::CardDuplicated(card))
        } else {
            None
        }
    }

    /// Whether `side` playing `card` records a suit that it was not known to
    /// lack: a card off the called suit, not yet recorded for that seat.
    pub open spec fn newly_lacking(self, side: Side, card: Card) -> bool {
        &&& self.current_spec().called_suit_spec() matches Some(t)
        &&& card.suit != t
        &&& !self.exhausted_spec().has(side, t)
    }

    /// `next` is this contract after `side` legally played `card`: the card is
    /// used, a card off the called suit records that `side` lacks that suit,
    /// and the card joins the current trick, which is closed and recorded
    /// when it is the fourth one.
    pub open spec fn after_play(self, next: Self, side: Side, card: Card) -> bool {
        &&& next.params_spec() == self.params_spec()
        &&& forall|c: Card| #[trigger] next.used_spec().has(c) == (self.used_spec().has(c) || c == card)
        &&& forall|s: Side, t: Suit| #[trigger]
            next.exhausted_spec().has(s, t) == (self.exhausted_spec().has(s, t) || (s == side
                && self.current_spec().called_suit_spec() == Some(t) && card.suit != t))
        &&& next.registered_spec() == self.registered_spec().push(self.newly_lacking(side, card))
        &&& self.current_spec().cards_spec().len() < 3 ==> {
            &&& next.tricks_spec() == self.tricks_spec()
            &&& next.winners_spec() == self.winners_spec()
            &&& next.current_spec().first_spec() == self.current_spec().first_spec()
            &&& next.current_spec().cards_spec() == self.current_spec().cards_spec().push(card)
        }
        &&& self.current_spec().cards_spec().len() == 3 ==> {
            &&& next.tricks_spec().drop_last() == self.tricks_spec()
            &&& next.tricks_spec().len() == self.tricks_spec().len() + 1
            &&& next.tricks_spec().last().first_spec() == self.current_spec().first_spec()
            &&& next.tricks_spec().last().cards_spec() == self.current_spec().cards_spec().push(card)
            &&& next.winners_spec().drop_last() == self.winners_spec()
            &&& next.current_spec().cards_spec().len() == 0
        }
    }

    /// Seat to play after `side` played and the contract became `next`: the
    /// following seat, or the winner of the trick that the card closed.
    pub open spec fn next_to_play(self, next: Self, side: Side) -> Side {
        if self.current_spec().cards_spec().len() < 3 {
            side_at(side_index(side) + 1)
        } else {
            next.winners_spec().last()
        }
    }

    /// The trick holding the last played card: the current one when it holds
    /// a card, otherwise the last completed one.
    pub open spec fn last_trick(self) -> Trick {
        if self.current_spec().cards_spec().len() > 0 {
            self.current_spec()
        } else {
            self.tricks_spec().last()
        }
    }

    /// `next` is this contract with its last played card taken back: the card
    /// leaves its trick (a completed trick becomes the current one again) and
    /// the used cards, and the suit its play recorded as lacking, if it
    /// recorded one, is forgotten.
    pub open spec fn after_undo(self, next: Self) -> bool {
        let t = self.last_trick();
        let card = t.cards_spec().last();
        let seat = seat_of(t.first_spec(), t.cards_spec().len() - 1);
        &&& next.params_spec() == self.params_spec()
        &&& self.current_spec().cards_spec().len() > 0 ==> {
            &&& next.tricks_spec() == self.tricks_spec()
            &&& next.winners_spec() == self.winners_spec()
        }
        &&& self.current_spec().cards_spec().len() == 0 ==> {
            &&& next.tricks_spec() == self.tricks_spec().drop_last()
            &&& next.winners_spec() == self.winners_spec().drop_last()
        }
        &&& next.current_spec().first_spec() == t.first_spec()
        &&& next.current_spec().cards_spec() == t.cards_spec().drop_last()
        &&& forall|c: Card| #[trigger] next.used_spec().has(c) == (self.used_spec().has(c) && c != card)
        &&& forall|s: Side, u: Suit| #[trigger]
            next.exhausted_spec().has(s, u) == (self.exhausted_spec().has(s, u) && !(self.registered_spec().last()
                && t.cards_spec().len() >= 2 && s == seat && t.called_suit_spec() == Some(u)))
        &&& next.registered_spec() == self.registered_spec().drop_last()
    }

    /// A contract with no card played yet; the whist leads.
    pub fn new(params: ContractParametersGen) -> (r: Self)
        ensures
            r.wf(),
            r.params_spec() == params,
            r.tricks_spec().len() == 0,
            r.current_spec().cards_spec().len() == 0,
            forall|c: Card| !#[trigger] r.used_spec().has(c),
            forall|s: Side, t: Suit| !#[trigger] r.exhausted_spec().has(s, t),
    {
        let whist = params.whist();
        let solver = SmartTrickSolver::new(params.bid().trump());
        Contract {
            params,
            tricks: Vec::new(),
            winners: Vec::new(),
            current: Trick::new(whist),
            exhausted: SuitExhaust::new(),
            used: CardSet::empty(),
            registered: Vec::new(),
            solver,
        }
    }

    pub fn contract_spec(&self) -> (r: &ContractParametersGen)
        ensures
            *r == self.params_spec(),
    {
        &self.params
    }

    pub fn declarer(&self) -> (r: Side)
        ensures
            r == self.declarer_spec(),
    {
        self.params.declarer()
    }

    pub fn dummy(&self) -> (r: Side)
        ensures
            r == self.dummy_spec(),
    {
        self.params.dummy()
    }

    pub fn current_trick(&self) -> (r: &Trick)
        ensures
            *r == self.current_spec(),
    {
        &self.current
    }

    pub fn completed_tricks(&self) -> (r: &Vec<Trick>)
        ensures
            r@ == self.tricks_spec(),
    {
        &self.tricks
    }

    /// Seat whose turn it is to play.
    pub fn current_side(&self) -> (r: Side)
        requires
            self.wf(),
        ensures
            r == self.current_side_spec(),
    {
        self.current.first_player_side().next_i(self.current.count_cards())
    }

    /// Whether all thirteen tricks have been played.
    pub fn is_completed(&self) -> (r: bool)
        requires
            self.wf(),
        ensures
            r == self.is_completed_spec(),
    {
        self.tricks.len() == QUARTER_SIZE
    }

    /// Whether `card` has been played.
    pub fn card_used(&self, card: &Card) -> (r: bool)
        ensures
            r == self.used_spec().has(*card),
    {
        self.used.contains(card)
    }

    pub fn used_cards(&self) -> (r: CardSet)
        ensures
            r == self.used_spec(),
    {
        self.used
    }

    pub fn suits_exhausted(&self) -> (r: SuitExhaust)
        ensures
            r == self.exhausted_spec(),
    {
        self.exhausted
    }

    /// Whether `side` may still hold `card`: the card has not been played and
    /// the seat has not shown that it lacks the card's suit.
    pub fn side_possibly_has_card(&self, side: Side, card: &Card) -> (r: bool)
        ensures
            r == (!self.used_spec().has(*card) && !self.exhausted_spec().has(side, card.suit)),
    {
        !self.used.contains(card) && !self.exhausted.is_registered(&(side, card.suit()))
    }

    /// Plays `card` for `side`. The play is refused when the contract is over,
    /// when it is not the turn of `side`, or when the card has already been
    /// played. A card off the called suit records that `side` lacks that
    /// suit. The fourth card of a trick closes it: the trick goes to the
    /// seat holding its best card, which leads the next one. Returns the seat
    /// to play next.
    #[verifier::rlimit(40)]
    pub fn insert_card(&mut self, side: Side, card: Card) -> (r: Result<Side, ContractError>)
        requires
            old(self).wf(),
        ensures
            final(self).wf(),
            final(self).params_spec() == old(self).params_spec(),
            old(self).play_error(side, card) matches Some(e) ==> r == Err::<Side, ContractError>(e)
                && *final(self) == *old(self),
            old(self).play_error(side, card) is None ==> r == Ok::<Side, ContractError>(
                old(self).next_to_play(*final(self), side)) && old(self).after_play(*final(self), side, card),
    {
        if self.tricks.len() >= QUARTER_SIZE {
            return Err(ContractError::ContractFull);
        }
        let expected = self.current_side();
        if side != expected {
            return Err(ContractError::ViolatedOrder(Mismatch { expected, found: side }));
        }
        if self.used.contains(&card) {
            return Err(ContractError::CardDuplicated(card));
        }
        let ghost before = *self;
        let mut newly = false;
        match self.current.called_suit() {
            Some(called) => {
                if called != card.suit() {
                    newly = !self.exhausted.is_registered(&(side, called));
                    self.exhausted.register((side, called));
                }
            },
            None => {},
        }
        proof {
            if self.current.cards_spec().contains(card) {
                let k = choose|k: int| 0 <= k < self.current.cards_spec().len() && self.current.cards_spec()[k] == card;
                assert(self.played_at(4 * self.tricks@.len() + k) == card);
            }
        }
        let _ = self.current.insert_card(side, card);
        let _ = self.used.insert_card(card);
        self.registered.push(newly);
        if self.current.is_complete() {
            let w = match self.solver.winner(&self.current) {
                Ok(w) => w,
                Err(_) => {
                    proof {
                        assert(false);
                    }
                    side
                },
            };
            let mut done = Trick::new(w);
            std::mem::swap(&mut done, &mut self.current);
            self.tricks.push(done);
            self.winners.push(w);
            proof {
                assert(self.tricks@.drop_last() =~= before.tricks@);
                assert(self.winners@.drop_last() =~= before.winners@);
                lemma_played_when_trick_closes(before, *self, card);
                lemma_played_after_push(before, *self, card);
            }
            Ok(w)
        } else {
            proof {
                lemma_played_when_current_grows(before, *self, card);
                lemma_played_after_push(before, *self, card);
            }
            Ok(side.next())
        }
    }

    /// Takes back the last played card and returns it; fails when no card
    /// has been played.
    pub fn undo(&mut self) -> (r: Result<Card, ContractError>)
        requires
            old(self).wf(),
        ensures
            final(self).wf(),
            old(self).played_count() == 0 ==> r == Err::<Card, ContractError>(ContractError::NothingToUndo)
                && *final(self) == *old(self),
            old(self).played_count() > 0 ==> r == Ok::<Card, ContractError>(
                old(self).last_trick().cards_spec().last(),
            ) && old(self).after_undo(*final(self)),
    {
        let ghost before = *self;
        if self.current.count_cards() == 0 {
            if self.tricks.len() == 0 {
                return Err(ContractError::NothingToUndo);
            }
            let t = self.tricks.pop().unwrap();
            let _ = self.winners.pop();
            self.current = t;
            proof {
                assert(self.winners@ =~= before.winners@.subrange(0, before.winners@.len() - 1));
            }
        }
        let n = self.current.count_cards();
        let first = self.current.first_player_side();
        let called = self.current.called_suit();
        let flag = match self.registered.pop() {
            Some(f) => f,
            None => false,
        };
        let card = match self.current.undo() {
            Ok(c) => c,
            Err(_) => {
                proof {
                    assert(false);
                }
                return Err(ContractError::NothingToUndo);
            },
        };
        if flag && n >= 2 {
            match called {
                Some(cs) => {
                    self.exhausted.unregister(&(first.next_i(n - 1), cs));
                },
                None => {},
            }
        }
        let _ = self.used.remove_card(&card);
        proof {
            let t = before.last_trick();
            assert(t.cards_spec() =~= self.current.cards_spec().push(card));
            if before.current_spec().cards_spec().len() > 0 {
                lemma_played_when_current_grows(*self, before, card);
            } else {
                assert(before.tricks_spec().drop_last() =~= self.tricks@);
                lemma_played_when_trick_closes(*self, before, card);
                assert forall|i: int| 0 <= i < self.tricks@.len() implies self.winners@.subrange(0, i)
                    =~= before.winners@.subrange(0, i) by {}
            }
            lemma_played_after_pop(before, *self, card);
        }
        Ok(card)
    }

    /// Number of tricks among the first `n` completed ones that were taken
    /// by the partnership `axis`.
    pub fn tricks_taken_axis_in_n_first_tricks(&self, axis: Axis, n: usize) -> (r: u32)
        requires
            self.wf(),
        ensures
            r <= QUARTER_SIZE,
            n < self.winners_spec().len() ==> r == tricks_of_axis(self.winners_spec().subrange(0, n as int), axis),
            n >= self.winners_spec().len() ==> r == tricks_of_axis(self.winners_spec(), axis),
    {
        let bound = if n < self.winners.len() {
            n
        } else {
            self.winners.len()
        };
        let mut count: u32 = 0;
        let mut i: usize = 0;
        while i < bound
            invariant
                i <= bound,
                bound <= self.winners.len(),
                self.winners.len() <= QUARTER_SIZE,
                count == tricks_of_axis(self.winners@.subrange(0, i as int), axis),
                count <= i,
            decreases bound - i,
        {
            proof {
                assert(self.winners@.subrange(0, i + 1).drop_last() =~= self.winners@.subrange(0, i as int));
            }
            if self.winners[i].axis() == axis {
                count = count + 1;
            }
            i = i + 1;
        }
        proof {
            if n >= self.winners.len() {
                assert(self.winners@.subrange(0, i as int) =~= self.winners@);
            }
        }
        count
    }

    /// Number of completed tricks taken by the partnership `axis`.
    pub fn total_tricks_taken_axis(&self, axis: Axis) -> (r: u32)
        requires
            self.wf(),
        ensures
            r == tricks_of_axis(self.winners_spec(), axis),
            r <= QUARTER_SIZE,
    {
        self.tricks_taken_axis_in_n_first_tricks(axis, QUARTER_SIZE)
    }

    /// Number of tricks among the first `n` completed ones won by `side`.
    pub fn tricks_taken_side_in_n_first_tricks(&self, side: Side, n: usize) -> (r: u32)
        requires
            self.wf(),
        ensures
            r <= QUARTER_SIZE,
            n < self.winners_spec().len() ==> r == tricks_of_side(self.winners_spec().subrange(0, n as int), side),
            n >= self.winners_spec().len() ==> r == tricks_of_side(self.winners_spec(), side),
    {
        let bound = if n < self.winners.len() {
            n
        } else {
            self.winners.len()
        };
        let mut count: u32 = 0;
        let mut i: usize = 0;
        while i < bound
            invariant
                i <= bound,
                bound <= self.winners.len(),
                self.winners.len() <= QUARTER_SIZE,
                count == tricks_of_side(self.winners@.subrange(0, i as int), side),
                count <= i,
            decreases bound - i,
        {
            proof {
                assert(self.winners@.subrange(0, i + 1).drop_last() =~= self.winners@.subrange(0, i as int));
            }
            if self.winners[i] == side {
                count = count + 1;
            }
            i = i + 1;
        }
        proof {
            if n >= self.winners.len() {
                assert(self.winners@.subrange(0, i as int) =~= self.winners@);
            }
        }
        count
    }

    /// Number of completed tricks won by `side`.
    pub fn total_tricks_taken_side(&self, side: Side) -> (r: u32)
        requires
            self.wf(),
        ensures
            r == tricks_of_side(self.winners_spec(), side),
            r <= QUARTER_SIZE,
    {
        self.tricks_taken_side_in_n_first_tricks(side, QUARTER_SIZE)
    }

    /// Number of completed tricks.
    pub fn count_completed_tricks(&self) -> (r: usize)
        ensures
            r == self.tricks_spec().len(),
    {
        self.tricks.len()
    }

    /// Seat that plays a role in this contract.
    pub fn side_by_role(&self, role: PlayRole) -> (r: Side)
        ensures
            r == side_at(side_index(self.declarer_spec()) + role_index(role)),
    {
        match role {
            PlayRole::Whist => self.params.whist(),
            PlayRole::Declarer => self.params.declarer(),
            PlayRole::Offside => self.params.offside(),
            PlayRole::Dummy => self.params.dummy(),
        }
    }

    /// Role that a seat plays in this contract.
    pub fn role_by_side(&self, side: Side) -> (r: PlayRole)
        ensures
            r == role_at(side_distance(side, self.declarer_spec()) as int),
    {
        match side.distance_from(self.params.declarer()) {
            0 => PlayRole::Declarer,
            1 => PlayRole::Whist,
            2 => PlayRole::Dummy,
            _ => PlayRole::Offside,
        }
    }

    /// Number of completed tricks won by the seat playing `role`.
    pub fn total_tricks_taken_role(&self, role: PlayRole) -> (r: u32)
        requires
            self.wf(),
        ensures
            r == tricks_of_side(self.winners_spec(), side_at(side_index(self.declarer_spec()) + role_index(role))),
    {
        let side = self.side_by_role(role);
        self.total_tricks_taken_side(side)
    }

    /// Number of completed tricks taken by the partnership of the seat
    /// playing `role`.
    pub fn total_tricks_taken_role_axis(&self, role: PlayRole) -> (r: u32)
        requires
            self.wf(),
        ensures
            r == tricks_of_axis(
                self.winners_spec(),
                side_axis(side_at(side_index(self.declarer_spec()) + role_index(role))),
            ),
    {
        let side = self.side_by_role(role);
        self.total_tricks_taken_axis(side.axis())
    }
}

proof fn lemma_axes_split(winners: Seq<Side>)
    ensures
        tricks_of_axis(winners, Axis::NorthSouth) + tricks_of_axis(winners, Axis::EastWest)
            == winners.len(),
    decreases winners.len(),
{
    if winners.len() > 0 {
        lemma_axes_split(winners.drop_last());
    }
}

/// Every completed trick is taken by exactly one of the two partnerships.
pub proof fn contract_tricks_split_between_partnerships(contract: Contract)
    requires
        contract.wf(),
    ensures
        tricks_of_axis(contract.winners_spec(), Axis::NorthSouth) + tricks_of_axis(
            contract.winners_spec(),
            Axis::EastWest,
        ) == contract.tricks_spec().len(),
{
    lemma_axes_split(contract.winners_spec());
}

/// Taking back a card right after playing it gives back the contract as it
/// was: the same tricks and winners, the same current trick, the same used
/// cards and the same suits known to be lacking.
pub proof fn contract_undo_restores(before: Contract, played: Contract, undone: Contract, side: Side, card: Card)
    requires
        before.wf(),
        before.play_error(side, card) is None,
        before.after_play(played, side, card),
        played.after_undo(undone),
    ensures
        undone.params_spec() == before.params_spec(),
        undone.tricks_spec() == before.tricks_spec(),
        undone.winners_spec() == before.winners_spec(),
        undone.current_spec().first_spec() == before.current_spec().first_spec(),
        undone.current_spec().cards_spec() == before.current_spec().cards_spec(),
        forall|c: Card| #[trigger] undone.used_spec().has(c) == before.used_spec().has(c),
        forall|s: Side, u: Suit| #[trigger] undone.exhausted_spec().has(s, u) == before.exhausted_spec().has(s, u),
        undone.registered_spec() == before.registered_spec(),
{
    let cur = before.current_spec();
    assert(cur.cards_spec().push(card).drop_last() =~= cur.cards_spec());
    assert(before.registered_spec().push(before.newly_lacking(side, card)).drop_last() =~= before.registered_spec());
    let t = played.last_trick();
    assert(t.first_spec() == cur.first_spec());
    assert(t.cards_spec() == cur.cards_spec().push(card));
    assert(seat_of(t.first_spec(), t.cards_spec().len() - 1) == side);
    assert(cur.cards_spec().len() > 0 ==> t.called_suit_spec() == cur.called_suit_spec());
}

} // verus!
