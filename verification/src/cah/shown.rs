//! What building a panel makes of a game and of the panel: the statements
//! that the functions which build the panels of the round answer for.

use vstd::prelude::*;
use crate::cah::cards::PlayerKind;
use crate::cah::deal::is_laid;
use crate::cah::panels::{answering, filled_text, hand_fills};
use crate::cah::round::{Ingame, CAH};
use crate::cah::setup::{Action, Panel};
use crate::game::grid::{choice_button, is_grid, selection_button};
use crate::game::panel::{grows_by, is_action, Event, GameMessage};
use crate::game::select::{closed, grid_press, opened};
use crate::kind;
use crate::message::{ActionRowComponent, ButtonStyle};
use crate::resource::Snowflake;
use crate::text::signed_decimal_text;

verus! {

impl Ingame {
    /// Whether a panel is what another becomes by the main panel of the
    /// writing: it has two fields more, the list of the players and the
    /// prompt, and one button more, which shows a player the hand.
    pub open spec fn writing_shown(self, before: GameMessage, after: GameMessage) -> bool {
        &&& after.fields@.len() == before.fields@.len() + 2
        &&& after.fields@.take(before.fields@.len() as int) == before.fields@
        &&& ({
            let players = after.fields@[before.fields@.len() as int];
            let prompt = after.fields@[before.fields@.len() as int + 1];
            &&& players.name@ == "Players"@ && players.value@ == self.writing_list()
                && !players.inline
            &&& prompt.name@ == "Prompt"@ && prompt.value@ == self.prompt_text()
                && !prompt.inline
        })
        &&& exists|button: ActionRowComponent|
            is_action(button, ButtonStyle::Primary, "ShowHand"@, "Show Hand"@, false)
                && grows_by(
                before.components@,
                after.components@,
                button,
            )
    }

    /// Whether a panel is what another becomes by the panel of the reading:
    /// it has two fields more, the list of the players and the answers in
    /// the order of the round, and below its rows a grid with one button for
    /// each answer.
    pub open spec fn answers_shown(self, before: GameMessage, after: GameMessage) -> bool {
        &&& after.fields@.len() == before.fields@.len() + 2
        &&& after.fields@.take(before.fields@.len() as int) == before.fields@
        &&& ({
            let players = after.fields@[before.fields@.len() as int];
            let answers = after.fields@[before.fields@.len() as int + 1];
            &&& players.name@ == "Players"@ && players.value@ == self.reading_list()
                && !players.inline
            &&& answers.name@ == "Answers"@ && answers.value@ == self.answers_text()
                && !answers.inline
        })
        &&& after.components@.take(before.components@.len() as int) == before.components@
        &&& is_grid(
            after.components@.skip(before.components@.len() as int),
            answering(self.players@, self.czar).len(),
            choice_button(
                Seq::new(answering(self.players@, self.czar).len(), |k: int| k as usize),
            ),
        )
    }

    /// Whether a game, a panel and an answer are what follows from picking
    /// the `i`-th answer that was read out: the player who gave it has one
    /// point more and nothing else has changed; the panel has the scores and
    /// names the winner of the round or, with the points that win, of the
    /// game; and the game is done exactly then.
    pub open spec fn winner_shown(self, now: Ingame, before: GameMessage, after: GameMessage, i: usize, r: Option<Action>) -> bool {
        &&& now.sound()
        &&& now.packs == self.packs
        &&& now.cards == self.cards
        &&& now.points == self.points
        &&& now.prompt == self.prompt
        &&& now.czar == self.czar
        &&& now.players@.len() == self.players@.len()
        &&& ({
            let winner = self.reading_order()[i as int] as int;
            let total = Ingame::one_more(self.players@[winner].points);
            let answer = filled_text(
                self.packs,
                self.prompt,
                self.players@[winner].laid(),
            );
            let name = self.players@[winner].kind.name();
            let n = before.fields@.len() as int;
            &&& 0 <= winner < self.players@.len()
            &&& forall|k: int|
                0 <= k < self.players@.len() && k != winner ==> now.players@[k]
                    == self.players@[k]
            &&& now.players@[winner].points == total
            &&& now.players@[winner].kind == self.players@[winner].kind
            &&& now.players@[winner].hand == self.players@[winner].hand
            &&& now.players@[winner].selected == self.players@[winner].selected
            &&& r == (if total >= self.points {
                Some(Action::Done)
            } else {
                None
            })
            &&& after.fields@.take(n) == before.fields@
            &&& after.fields@[n].name@ == "Players"@
            &&& after.fields@[n].value@ == now.score_list()
            &&& if total >= self.points {
                &&& after.fields@.len() == n + 3
                &&& after.fields@[n + 1].name@ == "We have a winner!"@
                &&& after.fields@[n + 1].value@ == name + " won the game with `"@
                    + signed_decimal_text(total as int) + "` points!"@
                &&& after.fields@[n + 2].name@ == "Last words"@
                &&& after.fields@[n + 2].value@ == ">>> "@ + answer
                &&& after.components == before.components
            } else {
                &&& after.fields@.len() == n + 2
                &&& after.fields@[n + 1].name@ == "Round Winner"@
                &&& after.fields@[n + 1].value@ == name + "\n\n>>> "@ + answer
                &&& exists|button: ActionRowComponent|
                    is_action(button, ButtonStyle::Primary, "Continue"@, "Continue"@, false)
                        && grows_by(
                        before.components@,
                        after.components@,
                        button,
                    )
            }
        })
    }

    /// Whether a game, a panel and an answer are what follows from building
    /// the panel of the reading for an event. Where the event is the czar
    /// picking an answer, the round has its winner; else the game stays as
    /// it is, the answers are shown, and nothing is asked of the game.
    pub open spec fn read_shown(
        self,
        now: Ingame,
        before: GameMessage,
        after: GameMessage,
        event: Event,
        r: Option<Action>,
    ) -> bool {
        match self.picked(event) {
            Some(i) => self.winner_shown(now, before, after, i, r),
            None => now == self && r is None && self.answers_shown(before, after),
        }
    }

    /// Whether a game, a panel and an answer are what follows from showing
    /// a user the hand for an event. For a user who does not play nothing
    /// changes and nothing is asked. Else the panel has the hand of that
    /// player as its last field. For the czar that is all. For any other
    /// player the place that the event pressed is selected or opened; the
    /// panel has the prompt with what is selected and the grid of the hand;
    /// and `ChangeHand` is asked for exactly when the press completed the
    /// selection, or opened one that was complete.
    pub open spec fn hand_shown(
        self,
        now: Ingame,
        shown: GameMessage,
        shows: GameMessage,
        event: Event,
        user: Snowflake<kind::User>,
        r: Option<Action>,
    ) -> bool {
        &&& now.sound()
        &&& now.dealt()
        &&& now.packs == self.packs
        &&& now.cards == self.cards
        &&& now.points == self.points
        &&& now.prompt == self.prompt
        &&& now.czar == self.czar
        &&& now.players@.len() == self.players@.len()
        &&& ({
            let who = PlayerKind::User(user);
            let players = self.players@;
            if forall|j: int| 0 <= j < players.len() ==> !players[j].kind.same(who) {
                &&& r is None
                &&& now == self
                &&& shows == shown
            } else {
                let at = choose|at: int|
                    0 <= at < players.len() && players[at].kind.same(who) && forall|j: int|
                        0 <= j < at ==> !players[j].kind.same(who);
                let before = players[at];
                let after = now.players@[at];
                let n = shown.fields@.len() as int;
                &&& forall|k: int|
                    0 <= k < players.len() && k != at ==> now.players@[k] == players[k]
                &&& after.kind == before.kind && after.points == before.points && after.hand
                    == before.hand
                &&& shows.fields@.take(n) == shown.fields@
                &&& shows.fields@.last().name@ == "Hand"@
                &&& shows.fields@.last().value@ == self.hand_text(before)
                &&& if self.czar.same(who) {
                    &&& r is None
                    &&& after.selected == before.selected
                    &&& shows.fields@.len() == n + 1
                    &&& shows.components == shown.components
                } else {
                    let press = grid_press(event.press, self.cards);
                    let complete_before = hand_fills(
                        self.packs,
                        self.prompt,
                        before.hand@,
                        before.selected@,
                    );
                    let complete_after = hand_fills(
                        self.packs,
                        self.prompt,
                        before.hand@,
                        after.selected@,
                    );
                    &&& shows.fields@.len() == n + 2
                    &&& shows.fields@[n].name@ == "Answer"@
                    &&& shows.fields@[n].value@ == filled_text(
                        self.packs,
                        self.prompt,
                        after.laid(),
                    )
                    &&& shows.components@.take(shown.components@.len() as int) == shown.components@
                    &&& match press {
                        Some(place) => if is_laid(before.selected@, place as int) {
                            &&& after.selected@ == opened(
                                before.selected@,
                                place,
                            )
                            &&& r is Some == complete_before
                            &&& is_grid(
                                shows.components@.skip(shown.components@.len() as int),
                                self.cards as nat,
                                selection_button(after.selected@, false),
                            )
                        } else {
                            &&& after.selected@ == closed(
                                before.selected@,
                                place,
                            )
                            &&& r is Some == complete_after
                            &&& is_grid(
                                shows.components@.skip(shown.components@.len() as int),
                                self.cards as nat,
                                selection_button(
                                    after.selected@,
                                    complete_after,
                                ),
                            )
                        },
                        None => {
                            &&& after.selected == before.selected
                            &&& r is None
                            &&& is_grid(
                                shows.components@.skip(shown.components@.len() as int),
                                self.cards as nat,
                                selection_button(
                                    after.selected@,
                                    complete_before,
                                ),
                            )
                        },
                    }
                    &&& r is Some ==> r == Some(Action::ChangeHand)
                }
            }
        })
    }

    /// Whether a game, a panel and an answer are what follows from building
    /// a panel of the writing for an event. The main panel leaves the game
    /// as it is and asks nothing of it; the hand of a user is as
    /// [`Ingame::hand_shown`] says.
    pub open spec fn write_shown(
        self,
        now: Ingame,
        before: GameMessage,
        after: GameMessage,
        event: Event,
        panel: Panel,
        user: Snowflake<kind::User>,
        r: Option<Action>,
    ) -> bool {
        match panel {
            Panel::Main => now == self && r is None && self.writing_shown(before, after),
            Panel::Hand => self.hand_shown(now, before, after, event, user, r),
        }
    }
}

impl CAH {
    /// Whether a game, a panel and an answer are what follows from building
    /// a panel of this game for an event: the game stays at its stage, and
    /// game, panel and answer are what the panel of that stage makes of them.
    pub open spec fn panel_shown(
        self,
        now: CAH,
        before: GameMessage,
        after: GameMessage,
        event: Event,
        panel: Panel,
        user: Snowflake<kind::User>,
        r: Option<Action>,
    ) -> bool {
        match (self, now) {
            (CAH::Setup(s), CAH::Setup(t)) => s.created(t, before, after, event, r),
            (CAH::Write(g), CAH::Write(h)) => g.write_shown(h, before, after, event, panel, user, r),
            (CAH::Read(g), CAH::Read(h)) => g.read_shown(h, before, after, event, r),
            _ => false,
        }
    }
}

} // verus!
