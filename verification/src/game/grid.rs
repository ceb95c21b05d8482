//! Grids of numbered buttons, five to a row.

use vstd::prelude::*;
use vstd::string::*;
use crate::cah::deal::{is_laid, laid_down};
use crate::game::panel::{action_button, is_action, Flow};
use crate::game::table::{hash_number, mark, mark_of, read_hash};
use crate::message::{ActionRow, ActionRowComponent, ButtonStyle};
use crate::text::{decimal, decimal_text, push_char};

verus! {

/// The identifier of the button with a number: `#` and the character of the number.
pub open spec fn grid_id(k: int) -> Seq<char> {
    seq!['#', mark_of(k)]
}

/// Writes the identifier of the button with a number.
pub fn write_grid_id(k: usize) -> (r: String)
    requires
        k < 64,
    ensures
        r@ == grid_id(k as int),
{
    let mut r = String::new();
    push_char(&mut r, '#');
    push_char(&mut r, mark(k));
    assert(r@ =~= grid_id(k as int));
    r
}

/// Whether rows are `count` buttons, five to a row but for the last row, and
/// each button is as `good` says of its place.
pub open spec fn is_grid(
    rows: Seq<ActionRow>,
    count: nat,
    good: spec_fn(int, ActionRowComponent) -> bool,
) -> bool {
    &&& rows.len() == (count + 4) / 5
    &&& forall|r: int|
        0 <= r < rows.len() ==> (#[trigger] rows[r]).components@.len() == (if count - 5 * r < 5 {
            count - 5 * r
        } else {
            5
        })
    &&& forall|k: int| 0 <= k < count ==> good(k, #[trigger] rows[k / 5].components@[k % 5])
}

/// What the button at a place of a selection grid is: green when its place
/// is selected and grey when not, labelled with its place counted from one,
/// and disabled when it is not selected and no more is to be selected.
pub open spec fn selection_button(selected: Seq<Option<usize>>, disable_unselected: bool) -> spec_fn(
    int,
    ActionRowComponent,
) -> bool {
    |k: int, c: ActionRowComponent|
        is_action(
            c,
            if is_laid(selected, k) {
                ButtonStyle::Success
            } else {
                ButtonStyle::Secondary
            },
            grid_id(k),
            decimal_text((k + 1) as nat),
            !is_laid(selected, k) && disable_unselected,
        )
}

/// What the button at a place of a choice grid is: it stands for the choice
/// that was shuffled to that place.
pub open spec fn choice_button(shuffle: Seq<usize>) -> spec_fn(int, ActionRowComponent) -> bool {
    |k: int, c: ActionRowComponent|
        is_action(
            c,
            ButtonStyle::Primary,
            grid_id(shuffle[k] as int),
            decimal_text((k + 1) as nat),
            false,
        )
}

/// Lays buttons out in rows of five.
pub fn rows_of_five(buttons: Vec<ActionRowComponent>) -> (rows: Vec<ActionRow>)
    ensures
        is_grid(rows@, buttons@.len(), |k: int, c: ActionRowComponent| c == buttons@[k]),
{
    let ghost all = buttons@;
    let ghost good = |k: int, c: ActionRowComponent| c == all[k];
    let count = buttons.len();
    let mut rows: Vec<ActionRow> = Vec::new();
    let mut row: Vec<ActionRowComponent> = Vec::new();
    for button in it: buttons
        invariant
            it.seq() == all,
            count == all.len(),
            rows@.len() == it.index() / 5,
            row@.len() == it.index() % 5,
            forall|r: int| 0 <= r < rows@.len() ==> (#[trigger] rows@[r]).components@.len() == 5,
            forall|k: int|
                0 <= k < 5 * rows@.len() ==> #[trigger] rows@[k / 5].components@[k % 5] == all[k],
            forall|j: int| 0 <= j < row@.len() ==> #[trigger] row@[j] == all[5 * rows@.len() + j],
    {
        row.push(button);
        if row.len() == 5 {
            let ghost before = rows@;
            let ghost full = row@;
            rows.push(ActionRow::new(row));
            row = Vec::new();
            proof {
                assert forall|k: int| 0 <= k < 5 * rows@.len() implies #[trigger] rows@[k
                    / 5].components@[k % 5] == all[k] by {
                    if k < 5 * before.len() {
                        assert(rows@[k / 5] == before[k / 5]);
                    } else {
                        assert(k / 5 == before.len());
                        assert(full[k % 5] == all[5 * before.len() + k % 5]);
                    }
                }
            }
        }
    }
    if row.len() > 0 {
        let ghost before = rows@;
        let ghost part = row@;
        rows.push(ActionRow::new(row));
        proof {
            assert forall|k: int| 0 <= k < count implies good(
                k,
                #[trigger] rows@[k / 5].components@[k % 5],
            ) by {
                if k < 5 * before.len() {
                    assert(rows@[k / 5] == before[k / 5]);
                    assert(before[k / 5].components@[k % 5] == all[k]);
                } else {
                    assert(k / 5 == before.len());
                    assert(part[k % 5] == all[5 * before.len() + k % 5]);
                }
            }
            assert forall|r: int| 0 <= r < rows@.len() implies (#[trigger] rows@[r]).components@.len()
                == (if count - 5 * r < 5 {
                count - 5 * r
            } else {
                5
            }) by {
                if r < before.len() {
                    assert(rows@[r] == before[r]);
                }
            }
        }
    } else {
        proof {
            assert forall|k: int| 0 <= k < count implies good(
                k,
                #[trigger] rows@[k / 5].components@[k % 5],
            ) by {
                assert(rows@[k / 5].components@[k % 5] == all[k]);
            }
        }
    }
    rows
}

/// Rows that are a grid of some buttons are a grid of buttons of which all
/// is true that is true of those.
pub proof fn lemma_grid_of(
    rows: Seq<ActionRow>,
    buttons: Seq<ActionRowComponent>,
    good: spec_fn(int, ActionRowComponent) -> bool,
)
    requires
        is_grid(rows, buttons.len(), |k: int, c: ActionRowComponent| c == buttons[k]),
        forall|k: int| 0 <= k < buttons.len() ==> good(k, #[trigger] buttons[k]),
    ensures
        is_grid(rows, buttons.len(), good),
{
    let same = |k: int, c: ActionRowComponent| c == buttons[k];
    assert forall|k: int| 0 <= k < buttons.len() implies good(
        k,
        #[trigger] rows[k / 5].components@[k % 5],
    ) by {
        assert(same(k, rows[k / 5].components@[k % 5]));
        assert(good(k, buttons[k]));
    }
}

/// The rows of a selection grid.
pub fn render_selection(count: usize, selected: &Vec<Option<usize>>, disable_unselected: bool) -> (rows:
    Vec<ActionRow>)
    requires
        count <= 64,
    ensures
        is_grid(rows@, count as nat, selection_button(selected@, disable_unselected)),
{
    let mut buttons: Vec<ActionRowComponent> = Vec::new();
    let mut k: usize = 0;
    while k < count
        invariant
            k <= count <= 64,
            buttons@.len() == k,
            forall|j: int|
                0 <= j < k ==> selection_button(selected@, disable_unselected)(
                    j,
                    #[trigger] buttons@[j],
                ),
        decreases count - k,
    {
        let pressed = laid_down(selected, k);
        let style = if pressed {
            ButtonStyle::Success
        } else {
            ButtonStyle::Secondary
        };
        buttons.push(
            action_button(
                style,
                write_grid_id(k),
                decimal((k + 1) as u64),
                !pressed && disable_unselected,
            ),
        );
        k = k + 1;
    }
    let rows = rows_of_five(buttons);
    proof {
        lemma_grid_of(rows@, buttons@, selection_button(selected@, disable_unselected));
    }
    rows
}

/// The rows of a choice grid.
pub fn render_choices(shuffle: &Vec<usize>) -> (rows: Vec<ActionRow>)
    requires
        forall|k: int| 0 <= k < shuffle@.len() ==> #[trigger] shuffle@[k] < 64,
    ensures
        is_grid(rows@, shuffle@.len(), choice_button(shuffle@)),
{
    let mut buttons: Vec<ActionRowComponent> = Vec::new();
    let mut k: usize = 0;
    while k < shuffle.len()
        invariant
            k <= shuffle.len(),
            forall|j: int| 0 <= j < shuffle@.len() ==> #[trigger] shuffle@[j] < 64,
            buttons@.len() == k,
            forall|j: int| 0 <= j < k ==> choice_button(shuffle@)(j, #[trigger] buttons@[j]),
        decreases shuffle.len() - k,
    {
        buttons.push(
            action_button(
                ButtonStyle::Primary,
                write_grid_id(shuffle[k]),
                decimal(k as u64 + 1),
                false,
            ),
        );
        k = k + 1;
    }
    let rows = rows_of_five(buttons);
    proof {
        lemma_grid_of(rows@, buttons@, choice_button(shuffle@));
    }
    rows
}

/// A grid of places of which some are selected, in order.
pub struct SelectionGrid {
    pub count: usize,
    pub selected: Vec<Option<usize>>,
    pub disable_unselected: bool,
}

impl SelectionGrid {
    pub fn render(&self) -> (rows: Vec<ActionRow>)
        requires
            self.count <= 64,
        ensures
            is_grid(
                rows@,
                self.count as nat,
                selection_button(self.selected@, self.disable_unselected),
            ),
    {
        render_selection(self.count, &self.selected, self.disable_unselected)
    }

    /// The place that was pressed, where the identifier of what was pressed
    /// is that of a button of a grid; else the game goes on.
    pub fn update(&mut self, custom_id: &str) -> (r: Flow<usize>)
        ensures
            *final(self) == *old(self),
            r == match hash_number(custom_id@) {
                Some(n) => Flow::Return(n),
                None => Flow::Continue,
            },
    {
        Flow::from_option(read_hash(custom_id))
    }
}

/// A grid of choices in shuffled order.
pub struct ChoiceGrid {
    pub shuffle: Vec<usize>,
}

impl ChoiceGrid {
    pub fn render(&self) -> (rows: Vec<ActionRow>)
        requires
            forall|k: int| 0 <= k < self.shuffle@.len() ==> #[trigger] self.shuffle@[k] < 64,
        ensures
            is_grid(rows@, self.shuffle@.len(), choice_button(self.shuffle@)),
    {
        render_choices(&self.shuffle)
    }

    /// The choice that was pressed.
    pub fn update(&mut self, custom_id: &str) -> (r: Flow<usize>)
        ensures
            *final(self) == *old(self),
            r == match hash_number(custom_id@) {
                Some(n) => Flow::Return(n),
                None => Flow::Continue,
            },
    {
        Flow::from_option(read_hash(custom_id))
    }
}

} // verus!
