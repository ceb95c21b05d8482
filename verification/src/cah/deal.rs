//! Drawing cards.

use std::sync::Arc;
use vstd::prelude::*;
use crate::cah::cards::{
    answers_held, blanks_within, fills, Card, Pack, Packs, Player, White,
};
use crate::chance::{below, index_below};

verus! {

impl Packs {
    /// How many cards of one kind the first `n` packs hold.
    pub open spec fn total_upto(self, black: bool, n: int) -> nat
        decreases n,
    {
        if n <= 0 {
            0
        } else {
            self.total_upto(black, n - 1) + self.cards(black, n - 1).len()
        }
    }

    /// How many cards of one kind the packs hold.
    pub open spec fn total(self, black: bool) -> nat {
        self.total_upto(black, self.0@.len() as int)
    }

    /// Whether a card of one kind lies at a place when the cards are counted
    /// through, pack after pack.
    pub open spec fn located(self, black: bool, number: nat, pack: int, card: int) -> bool {
        &&& 0 <= pack < self.0@.len()
        &&& 0 <= card < self.cards(black, pack).len()
        &&& self.total_upto(black, pack) + card == number
    }

    /// The more packs, the more cards.
    pub proof fn lemma_total_grows(self, black: bool, m: int, n: int)
        requires
            0 <= m <= n,
        ensures
            self.total_upto(black, m) <= self.total_upto(black, n),
        decreases n - m,
    {
        if m < n {
            self.lemma_total_grows(black, m, n - 1);
        }
    }

    /// Each number below the total is the number of one card only.
    pub proof fn lemma_located_once(self, black: bool, number: nat, p: int, c: int, q: int, d: int)
        requires
            self.located(black, number, p, c),
            self.located(black, number, q, d),
        ensures
            p == q && c == d,
    {
        if p < q {
            self.lemma_total_grows(black, p + 1, q);
        } else if q < p {
            self.lemma_total_grows(black, q + 1, p);
        }
    }

    /// Packs that can be played with hold fewer than 2^64 cards of a kind.
    pub proof fn lemma_total_fits(self, black: bool, n: int)
        requires
            self.playable(),
            0 <= n <= self.0@.len(),
        ensures
            self.total_upto(black, n) <= n * 0xffff_ffff,
        decreases n,
    {
        if n > 0 {
            self.lemma_total_fits(black, n - 1);
            assert(self.cards(black, n - 1).len() <= 0xffff_ffff);
            assert((n - 1) * 0xffff_ffff + 0xffff_ffff == n * 0xffff_ffff) by (nonlinear_arith);
        }
    }

    fn pack_len(&self, black: bool, pack: usize) -> (r: usize)
        requires
            pack < self.0@.len(),
        ensures
            r == self.cards(black, pack as int).len(),
    {
        if black {
            self.0[pack].data.black.len()
        } else {
            self.0[pack].data.white.len()
        }
    }

    /// Counts the cards of one kind.
    pub fn count(&self, black: bool) -> (r: u64)
        requires
            self.playable(),
        ensures
            r == self.total(black),
    {
        let mut r: u64 = 0;
        let mut i: usize = 0;
        while i < self.0.len()
            invariant
                self.playable(),
                i <= self.0.len(),
                r == self.total_upto(black, i as int),
            decreases self.0.len() - i,
        {
            proof {
                self.lemma_total_fits(black, i + 1);
                assert((i + 1) * 0xffff_ffff <= 0xffff_ffff * 0xffff_ffff) by (nonlinear_arith)
                    requires
                        i + 1 <= 0xffff_ffff,
                ;
            }
            r = r + self.pack_len(black, i) as u64;
            i = i + 1;
        }
        r
    }

    /// Finds the card of one kind with a number: the pack and the place in it.
    pub fn locate(&self, black: bool, number: u64) -> (r: (u32, u32))
        requires
            self.playable(),
            number < self.total(black),
        ensures
            self.located(black, number as nat, r.0 as int, r.1 as int),
    {
        let mut start: u64 = 0;
        let mut i: usize = 0;
        loop
            invariant
                self.playable(),
                i < self.0.len(),
                start == self.total_upto(black, i as int),
                start <= number < self.total(black),
            decreases self.0.len() - i,
        {
            let len = self.pack_len(black, i) as u64;
            proof {
                self.lemma_total_fits(black, i + 1);
                assert((i + 1) * 0xffff_ffff <= 0xffff_ffff * 0xffff_ffff) by (nonlinear_arith)
                    requires
                        i + 1 <= 0xffff_ffff,
                ;
            }
            if number - start < len {
                return (i as u32, (number - start) as u32);
            }
            proof {
                if i + 1 == self.0.len() {
                    assert(self.total(black) == start + len);
                }
            }
            start = start + len;
            i = i + 1;
        }
    }

    /// Draws a card of one kind at random, for a player picked at random.
    /// There is none to draw when the packs hold no card of the kind.
    pub fn draw<const BLACK: bool>(&self, players: &Vec<Player>) -> (r: Option<Card<BLACK>>)
        requires
            self.playable(),
            self.total(BLACK) > 0 ==> players@.len() > 0,
        ensures
            r is None <==> self.total(BLACK) == 0,
            r matches Some(c) ==> c.held_by(*self) && exists|i: int|
                0 <= i < players@.len() && c.player == #[trigger] players@[i].kind,
    {
        let total = self.count(BLACK);
        if total == 0 {
            return None;
        }
        let (pack, card) = self.locate(BLACK, below(total));
        let who = index_below(players.len());
        Some(Card { pack, card, player: players[who].kind })
    }

    /// Draws a prompt.
    pub fn draw_black(&mut self, players: &Vec<Player>) -> (r: Option<Card<true>>)
        requires
            old(self).playable(),
            old(self).total(true) > 0 ==> players@.len() > 0,
        ensures
            *final(self) == *old(self),
            r is None <==> old(self).total(true) == 0,
            r matches Some(c) ==> c.held_by(*old(self)) && exists|i: int|
                0 <= i < players@.len() && c.player == #[trigger] players@[i].kind,
    {
        self.draw::<true>(players)
    }

    /// Draws an answer.
    pub fn draw_white(&mut self, players: &Vec<Player>) -> (r: Option<White>)
        requires
            old(self).playable(),
            old(self).total(false) > 0 ==> players@.len() > 0,
        ensures
            *final(self) == *old(self),
            r is None <==> old(self).total(false) == 0,
            r matches Some(c) ==> c.held_by(*old(self)) && exists|i: int|
                0 <= i < players@.len() && c.player == #[trigger] players@[i].kind,
    {
        self.draw::<false>(players)
    }
}

/// Whether a place in the hand is among those laid down.
pub open spec fn is_laid(selected: Seq<Option<usize>>, place: int) -> bool {
    exists|i: int| 0 <= i < selected.len() && selected[i] == Some(place as usize)
}

/// The first `n` cards of a hand without those that were laid down.
pub open spec fn kept_upto(hand: Seq<White>, selected: Seq<Option<usize>>, n: int) -> Seq<White>
    decreases n,
{
    if n <= 0 {
        Seq::empty()
    } else if is_laid(selected, n - 1) {
        kept_upto(hand, selected, n - 1)
    } else {
        kept_upto(hand, selected, n - 1).push(hand[n - 1])
    }
}

/// A hand without the cards that were laid down, in the order of the hand.
pub open spec fn kept(hand: Seq<White>, selected: Seq<Option<usize>>) -> Seq<White> {
    kept_upto(hand, selected, hand.len() as int)
}

/// What is kept of a hand is no longer than the hand and holds cards of it only.
pub proof fn lemma_kept(hand: Seq<White>, selected: Seq<Option<usize>>, n: int)
    requires
        0 <= n <= hand.len(),
    ensures
        kept_upto(hand, selected, n).len() <= n,
        forall|k: int|
            0 <= k < kept_upto(hand, selected, n).len() ==> exists|j: int|
                0 <= j < n && hand[j] == #[trigger] kept_upto(hand, selected, n)[k],
    decreases n,
{
    if n > 0 {
        lemma_kept(hand, selected, n - 1);
        let before = kept_upto(hand, selected, n - 1);
        let now = kept_upto(hand, selected, n);
        assert forall|k: int| 0 <= k < now.len() implies exists|j: int|
            0 <= j < n && hand[j] == #[trigger] now[k] by {
            if k < before.len() {
                let j = choose|j: int| 0 <= j < n - 1 && hand[j] == before[k];
                assert(hand[j] == now[k]);
            } else {
                assert(hand[n - 1] == now[k]);
            }
        }
    }
}

/// Tells whether a place in the hand is among those laid down.
pub fn laid_down(selected: &Vec<Option<usize>>, place: usize) -> (r: bool)
    ensures
        r == is_laid(selected@, place as int),
{
    let mut i: usize = 0;
    while i < selected.len()
        invariant
            i <= selected.len(),
            forall|k: int| 0 <= k < i ==> selected@[k] != Some(place),
        decreases selected.len() - i,
    {
        match selected[i] {
            Some(k) => {
                if k == place {
                    return true;
                }
            },
            None => {},
        }
        i = i + 1;
    }
    false
}

/// Takes the cards that were laid down out of a hand.
pub fn keep(hand: &Vec<White>, selected: &Vec<Option<usize>>) -> (r: Vec<White>)
    ensures
        r@ == kept(hand@, selected@),
{
    let mut r: Vec<White> = Vec::new();
    let mut i: usize = 0;
    while i < hand.len()
        invariant
            i <= hand.len(),
            r@ == kept_upto(hand@, selected@, i as int),
        decreases hand.len() - i,
    {
        if !laid_down(selected, i) {
            r.push(hand[i]);
        }
        i = i + 1;
    }
    r
}

/// Whether the places laid down are places of a hand of `size` cards, each
/// laid down once.
pub open spec fn laid_once(selected: Seq<Option<usize>>, size: nat) -> bool {
    &&& forall|i: int| 0 <= i < selected.len() ==> (#[trigger] selected[i] matches Some(k) && k < size)
    &&& forall|i: int, j: int|
        0 <= i < j < selected.len() ==> #[trigger] selected[i] != #[trigger] selected[j]
}

/// Deals to one player after a round: the cards laid down leave the hand, and
/// the hand is filled up to `max` cards. A random player then lays down cards
/// of its new hand, picked at random, until they fill the prompt.
///
/// The deal fails when the packs hold no answers to fill the hand with, or
/// when a random player has laid down its whole hand and the prompt is still
/// not filled.
pub fn draw(
    players: &mut Vec<Player>,
    num: usize,
    packs: &mut Packs,
    max: usize,
    prompt: Card<true>,
) -> (r: bool)
    requires
        num < old(players)@.len(),
        old(packs).playable(),
        prompt.held_by(*old(packs)),
        forall|i: int| 0 <= i < old(players)@.len() ==> (#[trigger] old(players)@[i]).kind.numbered(),
        forall|k: int|
            0 <= k < old(players)@[num as int].hand@.len() ==> (
            #[trigger] old(players)@[num as int].hand@[k]).fit(*old(packs)),
    ensures
        *final(packs) == *old(packs),
        final(players)@.len() == old(players)@.len(),
        forall|i: int|
            0 <= i < old(players)@.len() && i != num ==> final(players)@[i] == old(players)@[i],
        final(players)@[num as int].kind == old(players)@[num as int].kind,
        final(players)@[num as int].points == old(players)@[num as int].points,
        ({
            let before = old(players)@[num as int];
            let after = final(players)@[num as int];
            let rest = kept(before.hand@, before.selected@);
            &&& rest.len() <= after.hand@.len()
            &&& after.hand@.take(rest.len() as int) == rest
            &&& forall|k: int|
                0 <= k < after.hand@.len() ==> (#[trigger] after.hand@[k]).fit(*old(packs))
            &&& r ==> after.hand@.len() == (if rest.len() > max {
                rest.len()
            } else {
                max as nat
            })
            &&& !(before.kind is Rando) ==> after.selected@.len() == 0
            &&& !(before.kind is Rando) ==> (r <==> rest.len() >= max || old(packs).total(false)
                > 0)
            &&& r ==> rest.len() >= max || old(packs).total(false) > 0
            &&& before.kind is Rando && (rest.len() >= max || old(packs).total(false) > 0) && old(
                packs,
            ).plain_answers() && prompt.blanks(*old(packs)) <= (if rest.len() > max {
                rest.len()
            } else {
                max as nat
            }) ==> r
            &&& before.kind is Rando ==> laid_once(after.selected@, after.hand@.len())
            &&& before.kind is Rando && r ==> fills(
                prompt.blanks(*old(packs)),
                *old(packs),
                after.laid(),
            )
        }),
{
    let ghost before = players@[num as int];
    let kind = players[num].kind;
    let points = players[num].points;
    let mut hand = keep(&players[num].hand, &players[num].selected);
    let ghost rest = hand@;
    proof {
        lemma_kept(before.hand@, before.selected@, before.hand@.len() as int);
    }
    let mut dealt = true;
    while hand.len() < max
        invariant_except_break
            dealt,
        invariant
            *packs == *old(packs),
            packs.playable(),
            num < players@.len(),
            players@ == old(players)@,
            rest.len() <= hand@.len(),
            hand@.take(rest.len() as int) == rest,
            forall|i: int| 0 <= i < players@.len() ==> (#[trigger] players@[i]).kind.numbered(),
            forall|k: int| 0 <= k < hand@.len() ==> (#[trigger] hand@[k]).fit(*packs),
            rest.len() < max ==> hand@.len() <= max,
            rest.len() >= max ==> hand@.len() == rest.len(),
            hand@.len() > rest.len() ==> packs.total(false) > 0,
        ensures
            *packs == *old(packs),
            rest.len() <= hand@.len(),
            hand@.take(rest.len() as int) == rest,
            forall|k: int| 0 <= k < hand@.len() ==> (#[trigger] hand@[k]).fit(*packs),
            dealt ==> hand@.len() == (if rest.len() > max {
                rest.len()
            } else {
                max as nat
            }),
            dealt <==> rest.len() >= max || packs.total(false) > 0,
        decreases max - hand.len(),
    {
        match packs.draw_white(players) {
            Some(card) => {
                let ghost old_hand = hand@;
                hand.push(card);
                assert(hand@.take(rest.len() as int) =~= old_hand.take(rest.len() as int));
            },
            None => {
                dealt = false;
                break ;
            },
        }
    }
    let mut selected: Vec<Option<usize>> = Vec::new();
    let mut filled = true;
    if dealt && !kind.is_user() {
        let mut places: Vec<usize> = Vec::new();
        let mut i: usize = 0;
        while i < hand.len()
            invariant
                i <= hand.len(),
                places@.len() == i,
                forall|k: int| 0 <= k < i ==> places@[k] == k,
            decreases hand.len() - i,
        {
            places.push(i);
            i = i + 1;
        }
        let ghost sure = packs.plain_answers() && prompt.blanks(*packs) <= hand@.len();
        loop
            invariant_except_break
                *packs == *old(packs),
                packs.playable(),
                prompt.held_by(*packs),
                sure == (packs.plain_answers() && prompt.blanks(*packs) <= hand@.len()),
                selected@.len() + places@.len() == hand@.len(),
                sure ==> selected@.len() <= prompt.blanks(*packs),
                forall|k: int| 0 <= k < hand@.len() ==> (#[trigger] hand@[k]).fit(*packs),
                laid_once(selected@, hand@.len() as nat),
                forall|k: int| 0 <= k < places@.len() ==> #[trigger] places@[k] < hand@.len(),
                forall|k: int, j: int|
                    #![trigger places@[k], selected@[j]]
                    0 <= k < places@.len() && 0 <= j < selected@.len() ==> selected@[j] != Some(
                        places@[k],
                    ),
                forall|k: int, j: int|
                    0 <= k < j < places@.len() ==> #[trigger] places@[k] != #[trigger] places@[j],
                filled,
            ensures
                laid_once(selected@, hand@.len() as nat),
                filled ==> fills(
                    prompt.blanks(*old(packs)),
                    *old(packs),
                    laid_of(hand@, selected@),
                ),
                sure ==> filled,
            decreases places@.len(),
        {
            let laid = lay(&hand, &selected);
            proof {
                lemma_laid_held(*packs, hand@, selected@);
                if sure {
                    lemma_plain_answers(*packs, laid@);
                }
            }
            if prompt.is_filled(packs, &laid) {
                break ;
            }
            if places.len() == 0 {
                filled = false;
                break ;
            }
            let at = index_below(places.len());
            let place = places.swap_remove(at);
            selected.push(Some(place));
        }
    }
    let ghost laid = laid_of(hand@, selected@);
    let player = Player { kind, points, hand, selected };
    assert(player.laid() =~= laid);
    players.set(num, player);
    dealt && filled
}

/// How many cards of one kind the first `n` of some packs hold.
pub open spec fn cards_in(packs: Seq<Arc<Pack>>, black: bool, n: int) -> nat
    decreases n,
{
    if n <= 0 {
        0
    } else {
        cards_in(packs, black, n - 1) + (if black {
            packs[n - 1].data.black@.len()
        } else {
            packs[n - 1].data.white@.len()
        })
    }
}

/// Whether no answer of some packs has a blank of its own.
pub open spec fn plain_in(packs: Seq<Arc<Pack>>) -> bool {
    forall|pack: int, card: int|
        0 <= pack < packs.len() && 0 <= card < packs[pack].data.white@.len() ==> (
        #[trigger] packs[pack].data.white@[card]).white_blanks() == 0
}

/// Whether no prompt of some packs takes more answers than `most`.
pub open spec fn take_in(packs: Seq<Arc<Pack>>, most: nat) -> bool {
    forall|pack: int, card: int|
        0 <= pack < packs.len() && 0 <= card < packs[pack].data.black@.len() ==> (
        #[trigger] packs[pack].data.black@[card]).black_blanks() <= most
}

impl Packs {
    /// Whether no answer has a blank of its own.
    pub open spec fn plain_answers(self) -> bool {
        plain_in(self.0@)
    }

    /// Whether no prompt takes more answers than `most`.
    pub open spec fn prompts_take(self, most: nat) -> bool {
        take_in(self.0@, most)
    }

    /// The packs hold as many cards as their list of packs does.
    pub proof fn lemma_total_in(self, black: bool, n: int)
        ensures
            self.total_upto(black, n) == cards_in(self.0@, black, n),
        decreases n,
    {
        if n > 0 {
            self.lemma_total_in(black, n - 1);
        }
    }
}

/// Answers that have no blanks of their own take no answers.
pub proof fn lemma_plain_answers(packs: Packs, answers: Seq<Option<White>>)
    requires
        packs.plain_answers(),
        forall|i: int|
            0 <= i < answers.len() ==> (#[trigger] answers[i] matches Some(c) ==> c.held_by(packs)),
    ensures
        blanks_within(packs, answers) == 0,
    decreases answers.len(),
{
    if answers.len() > 0 {
        assert forall|i: int| 0 <= i < answers.drop_last().len() implies (
        #[trigger] answers.drop_last()[i] matches Some(c) ==> c.held_by(packs)) by {
            assert(answers.drop_last()[i] == answers[i]);
        }
        lemma_plain_answers(packs, answers.drop_last());
        match answers.last() {
            Some(c) => {
                assert(answers[answers.len() - 1] == Some(c));
                assert(c.held_by(packs));
                assert(packs.0@[c.pack as int].data.white@[c.card as int].white_blanks() == 0);
            },
            None => {},
        }
    }
}

/// The cards at some places of a hand.
pub open spec fn laid_of(hand: Seq<White>, selected: Seq<Option<usize>>) -> Seq<Option<White>> {
    Seq::new(
        selected.len(),
        |i: int|
            match selected[i] {
                Some(k) => Some(hand[k as int]),
                None => None,
            },
    )
}

/// Cards laid down from a hand of cards of the packs are cards of the packs.
pub proof fn lemma_laid_held(packs: Packs, hand: Seq<White>, selected: Seq<Option<usize>>)
    requires
        forall|k: int| 0 <= k < hand.len() ==> (#[trigger] hand[k]).fit(packs),
        laid_once(selected, hand.len()),
    ensures
        answers_held(packs, laid_of(hand, selected)),
{
    assert forall|i: int| 0 <= i < laid_of(hand, selected).len() implies (#[trigger] laid_of(
        hand,
        selected,
    )[i] matches Some(c) ==> c.held_by(packs)) by {
        assert(selected[i] is Some);
    }
}

/// The cards at some places of a hand.
pub fn lay(hand: &Vec<White>, selected: &Vec<Option<usize>>) -> (r: Vec<Option<White>>)
    requires
        laid_once(selected@, hand@.len()),
    ensures
        r@ == laid_of(hand@, selected@),
{
    let mut r: Vec<Option<White>> = Vec::new();
    let mut i: usize = 0;
    while i < selected.len()
        invariant
            i <= selected.len(),
            laid_once(selected@, hand@.len()),
            r@.len() == i,
            forall|k: int| 0 <= k < i ==> r@[k] == laid_of(hand@, selected@)[k],
        decreases selected.len() - i,
    {
        assert(selected@[i as int] is Some);
        match selected[i] {
            Some(k) => {
                r.push(Some(hand[k]));
            },
            None => {
                r.push(None);
            },
        }
        i = i + 1;
    }
    assert(r@ =~= laid_of(hand@, selected@));
    r
}

} // verus!
