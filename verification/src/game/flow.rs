//! What becomes of the messages of a game once the game has answered an
//! action.

use vstd::prelude::*;
use crate::game::panel::{ActionResponse, GameMessage};

verus! {

/// One thing to do with the messages of a game.
pub enum Step<P> {
    /// Change the message that was pressed on to the panel that was built
    /// for the press.
    UpdatePressed,
    /// Change the message that was pressed on to the main panel, made anew.
    UpdateToMain,
    /// Change the main message to the main panel, made anew.
    EditMain,
    /// Delete the replies to the main message.
    DeleteReplies,
    /// Answer the press with this message, for the user alone.
    ReplyError(GameMessage),
    /// Answer the press with a panel of this kind, for the user alone.
    ReplyPanel(P),
}

/// What is to be done after an answer of the game, in order. `on_main` says
/// whether the press was on the main message, `built` whether a panel was
/// built for the press and shows anything.
///
/// Where nothing changes, the panel of the press is brought up to date. The
/// end of the game clears the replies and shows the last main panel. When
/// the game moves on, a press on the main message gets the new main panel
/// and the replies go; a press elsewhere gets its own panel, and the main
/// message is changed.
pub open spec fn planned<P>(answer: ActionResponse<P>, on_main: bool, built: bool) -> Seq<Step<P>> {
    match answer {
        ActionResponse::Nothing => if built {
            seq![Step::UpdatePressed]
        } else {
            Seq::empty()
        },
        ActionResponse::Exit => seq![Step::DeleteReplies, Step::UpdateToMain],
        ActionResponse::Error(msg) => seq![Step::ReplyError(msg)],
        ActionResponse::NextMain => if on_main {
            seq![Step::DeleteReplies, Step::UpdateToMain]
        } else {
            seq![Step::UpdatePressed, Step::EditMain]
        },
        ActionResponse::EditMain => if built {
            seq![Step::UpdatePressed, Step::EditMain]
        } else {
            seq![Step::EditMain]
        },
        ActionResponse::Reply(panel) => seq![Step::ReplyPanel(panel)],
    }
}

/// Plans what is to be done after an answer of the game, and says whether
/// the game is over.
pub fn plan<P>(answer: ActionResponse<P>, on_main: bool, built: bool) -> (r: (Vec<Step<P>>, bool))
    ensures
        r.0@ == planned(answer, on_main, built),
        r.1 == (answer is Exit),
{
    let mut steps: Vec<Step<P>> = Vec::new();
    let mut over = false;
    match answer {
        ActionResponse::Nothing => {
            if built {
                steps.push(Step::UpdatePressed);
            }
        },
        ActionResponse::Exit => {
            steps.push(Step::DeleteReplies);
            steps.push(Step::UpdateToMain);
            over = true;
        },
        ActionResponse::Error(msg) => {
            steps.push(Step::ReplyError(msg));
        },
        ActionResponse::NextMain => {
            if on_main {
                steps.push(Step::DeleteReplies);
                steps.push(Step::UpdateToMain);
            } else {
                steps.push(Step::UpdatePressed);
                steps.push(Step::EditMain);
            }
        },
        ActionResponse::EditMain => {
            if built {
                steps.push(Step::UpdatePressed);
            }
            steps.push(Step::EditMain);
        },
        ActionResponse::Reply(panel) => {
            steps.push(Step::ReplyPanel(panel));
        },
    }
    assert(steps@ =~= planned(answer, on_main, built));
    (steps, over)
}

} // verus!
