//! Checks by which a caller finds out whether a game is in order before it
//! asks the game for anything.

use vstd::prelude::*;
use crate::cah::cards::{CardData, Packs, Player, PlayerKind, White};
use crate::cah::panels::{find_kind, list_answering};
use crate::cah::round::{sound_player, Ingame, CAH};
use crate::cah::setup::Setup;
use crate::text::count_char;

verus! {

impl CardData {
    /// Tells whether the card can be played.
    pub fn is_playable(&self) -> (r: bool)
        ensures
            r == self.playable(),
    {
        match self {
            CardData::Raw(_) => true,
            CardData::Full { text, pick } => *pick >= count_char(text.as_str(), '_'),
        }
    }
}

/// Tells whether every card of a list can be played.
pub fn all_playable(cards: &Vec<CardData>) -> (r: bool)
    ensures
        r == forall|c: int| 0 <= c < cards@.len() ==> (#[trigger] cards@[c]).playable(),
{
    let mut i: usize = 0;
    while i < cards.len()
        invariant
            i <= cards.len(),
            forall|c: int| 0 <= c < i ==> (#[trigger] cards@[c]).playable(),
        decreases cards.len() - i,
    {
        if !cards[i].is_playable() {
            return false;
        }
        i = i + 1;
    }
    true
}

impl Packs {
    /// Tells whether the packs can be played with.
    pub fn is_playable(&self) -> (r: bool)
        ensures
            r == self.playable(),
    {
        if self.0.len() > 0xffff_ffff {
            return false;
        }
        let mut i: usize = 0;
        while i < self.0.len()
            invariant
                i <= self.0.len() <= u32::MAX,
                forall|black: bool, pack: int|
                    0 <= pack < i ==> (#[trigger] self.cards(black, pack)).len() <= u32::MAX,
                forall|black: bool, pack: int, card: int|
                    0 <= pack < i && 0 <= card < self.cards(black, pack).len() ==> (
                    #[trigger] self.cards(black, pack)[card]).playable(),
            decreases self.0.len() - i,
        {
            let data = &self.0[i].data;
            proof {
                assert(self.cards(true, i as int) == data.black@);
                assert(self.cards(false, i as int) == data.white@);
            }
            if data.black.len() > 0xffff_ffff || data.white.len() > 0xffff_ffff {
                proof {
                    if data.black.len() > 0xffff_ffff {
                        assert(self.cards(true, i as int).len() > u32::MAX);
                    } else {
                        assert(self.cards(false, i as int).len() > u32::MAX);
                    }
                }
                return false;
            }
            if !all_playable(&data.black) {
                proof {
                    let c = choose|c: int| 0 <= c < data.black@.len() && !data.black@[c].playable();
                    assert(!self.cards(true, i as int)[c].playable());
                }
                return false;
            }
            if !all_playable(&data.white) {
                proof {
                    let c = choose|c: int| 0 <= c < data.white@.len() && !data.white@[c].playable();
                    assert(!self.cards(false, i as int)[c].playable());
                }
                return false;
            }
            proof {
                assert forall|black: bool, pack: int| 0 <= pack < i + 1 implies (#[trigger] self.cards(
                    black,
                    pack,
                )).len() <= u32::MAX by {
                    if pack == i {
                        if black {
                        } else {
                        }
                    }
                }
                assert forall|black: bool, pack: int, card: int|
                    0 <= pack < i + 1 && 0 <= card < self.cards(black, pack).len() implies (
                #[trigger] self.cards(black, pack)[card]).playable() by {
                    if pack == i {
                        if black {
                            assert(data.black@[card].playable());
                        } else {
                            assert(data.white@[card].playable());
                        }
                    }
                }
            }
            i = i + 1;
        }
        true
    }

    /// Tells whether the packs hold an answer at a place, for a player who
    /// can be written.
    pub fn fits(&self, card: &White) -> (r: bool)
        ensures
            r == card.fit(*self),
    {
        let numbered = match card.player {
            PlayerKind::User(_) => true,
            PlayerKind::Rando(i) => i < usize::MAX,
        };
        numbered && (card.pack as usize) < self.0.len() && (card.card as usize)
            < self.0[card.pack as usize].data.white.len()
    }
}

/// Tells whether a player holds cards of the packs only and laid down cards
/// of the hand only.
pub fn is_sound_player(packs: &Packs, p: &Player) -> (r: bool)
    ensures
        r == sound_player(*packs, *p),
{
    let numbered = match p.kind {
        PlayerKind::User(_) => true,
        PlayerKind::Rando(i) => i < usize::MAX,
    };
    if !numbered {
        return false;
    }
    let mut i: usize = 0;
    while i < p.selected.len()
        invariant
            i <= p.selected.len(),
            forall|k: int|
                0 <= k < i ==> (#[trigger] p.selected@[k] matches Some(place) ==> place
                    < p.hand@.len()),
        decreases p.selected.len() - i,
    {
        match p.selected[i] {
            Some(place) => {
                if place >= p.hand.len() {
                    return false;
                }
            },
            None => {},
        }
        i = i + 1;
    }
    let mut k: usize = 0;
    while k < p.hand.len()
        invariant
            k <= p.hand.len(),
            p.in_hand(),
            forall|j: int| 0 <= j < k ==> (#[trigger] p.hand@[j]).fit(*packs),
        decreases p.hand.len() - k,
    {
        if !packs.fits(&p.hand[k]) {
            return false;
        }
        k = k + 1;
    }
    true
}

impl Setup {
    /// Tells whether a game can be started from this setup.
    pub fn is_sound(&self) -> (r: bool)
        ensures
            r == self.sound(),
    {
        self.cards >= 0 && self.packs.is_playable()
    }
}

impl Ingame {
    /// Tells whether the game is in order.
    pub fn is_sound(&self) -> (r: bool)
        ensures
            r == self.sound(),
    {
        if !self.packs.is_playable() {
            return false;
        }
        let prompt_numbered = match self.prompt.player {
            PlayerKind::User(_) => true,
            PlayerKind::Rando(i) => i < usize::MAX,
        };
        let held = (self.prompt.pack as usize) < self.packs.0.len() && (self.prompt.card as usize)
            < self.packs.0[self.prompt.pack as usize].data.black.len();
        if !(prompt_numbered && held) {
            return false;
        }
        if !self.czar.is_user() {
            return false;
        }
        let mut i: usize = 0;
        while i < self.players.len()
            invariant
                i <= self.players.len(),
                forall|k: int| 0 <= k < i ==> sound_player(self.packs, #[trigger] self.players@[k]),
            decreases self.players.len() - i,
        {
            if !is_sound_player(&self.packs, &self.players[i]) {
                return false;
            }
            i = i + 1;
        }
        match find_kind(&self.players, &self.czar) {
            Some(_) => true,
            None => false,
        }
    }

    /// Tells whether every player holds a full hand.
    pub fn is_dealt(&self) -> (r: bool)
        ensures
            r == self.dealt(),
    {
        let mut i: usize = 0;
        while i < self.players.len()
            invariant
                i <= self.players.len(),
                forall|k: int|
                    0 <= k < i ==> (#[trigger] self.players@[k]).hand@.len() == self.cards,
            decreases self.players.len() - i,
        {
            if self.players[i].hand.len() != self.cards {
                return false;
            }
            i = i + 1;
        }
        true
    }
}

impl CAH {
    /// Tells whether the game is in order.
    pub fn is_sound(&self) -> (r: bool)
        ensures
            r == self.sound(),
    {
        match self {
            CAH::Setup(s) => s.is_sound(),
            CAH::Write(g) => g.is_sound(),
            CAH::Read(g) => g.is_sound(),
        }
    }

    /// Tells whether the panels of the game can be built.
    pub fn is_showable(&self) -> (r: bool)
        ensures
            r == self.showable(),
    {
        match self {
            CAH::Setup(s) => s.packs.0.len() <= 64,
            CAH::Write(g) => g.cards <= 64 && g.is_dealt(),
            CAH::Read(g) => {
                let places = list_answering(&g.players, &g.czar);
                places.len() <= 64
            },
        }
    }
}

} // verus!
