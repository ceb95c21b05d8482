//! The widgets by which a user selects: a menu of texts, and a grid of places.

use vstd::prelude::*;
use vstd::string::*;
use crate::cah::deal::{is_laid, laid_down};
use crate::game::grid::{is_grid, render_selection, selection_button};
use crate::game::panel::{Event, GameMessage, Press};
use crate::game::table::{first_number, hash_number, mark, mark_of, read_first, read_hash};
use crate::message::{ActionRow, ActionRowComponent, SelectOption, TextSelectMenu};
use crate::text::{push_char, same_text};

verus! {

/// The numbers that picked menu entries stand for, in the order in which
/// they were picked. An entry whose value starts with none of the sixty-four
/// characters, or with that of a number that is no entry, is passed over.
pub open spec fn picks(values: Seq<String>, entries: nat) -> Seq<usize>
    decreases values.len(),
{
    if values.len() == 0 {
        Seq::empty()
    } else {
        let before = picks(values.drop_last(), entries);
        match first_number(values.last()@) {
            Some(n) => if n < entries {
                before.push(n)
            } else {
                before
            },
            None => before,
        }
    }
}

/// What is selected in a menu after a press: what the user picked, where the
/// press was on this menu.
pub open spec fn selected_after(
    selected: Seq<usize>,
    press: Option<Press>,
    name: Seq<char>,
    entries: nat,
) -> Seq<usize> {
    match press {
        Some(p) => if p.custom_id@ == name {
            picks(p.values@, entries)
        } else {
            selected
        },
        None => selected,
    }
}

/// Whether a row is the menu of this name that offers these items, any
/// number of them at once, with those ticked that are selected.
pub open spec fn is_select_row(
    row: ActionRow,
    name: Seq<char>,
    items: Seq<String>,
    selected: Seq<usize>,
) -> bool {
    &&& row.components@.len() == 1
    &&& row.components@[0] matches ActionRowComponent::TextSelectMenu(menu) && {
        &&& menu.custom_id@ == name
        &&& menu.placeholder matches Some(p) && p@ == name
        &&& menu.min_values == 0
        &&& menu.max_values == items.len()
        &&& !menu.disabled
        &&& menu.options@.len() == items.len()
        &&& forall|i: int|
            0 <= i < items.len() ==> {
                let option = #[trigger] menu.options@[i];
                &&& option.label == items[i]
                &&& option.value@ == seq![mark_of(i)]
                &&& option.description is None
                &&& option.default == selected.contains(i as usize)
            }
    }
}

/// Reads the numbers that picked menu entries stand for.
pub fn read_picks(values: &Vec<String>, entries: usize) -> (r: Vec<usize>)
    ensures
        r@ == picks(values@, entries as nat),
{
    let mut r: Vec<usize> = Vec::new();
    let mut i: usize = 0;
    while i < values.len()
        invariant
            i <= values.len(),
            r@ == picks(values@.take(i as int), entries as nat),
        decreases values.len() - i,
    {
        proof {
            assert(values@.take(i + 1).drop_last() =~= values@.take(i as int));
            assert(values@.take(i + 1).last() == values@[i as int]);
        }
        match read_first(values[i].as_str()) {
            Some(n) => {
                if n < entries {
                    r.push(n);
                }
            },
            None => {},
        }
        i = i + 1;
    }
    assert(values@.take(values.len() as int) =~= values@);
    r
}

/// Tells whether a number is among some numbers.
pub fn contains_number(numbers: &Vec<usize>, n: usize) -> (r: bool)
    ensures
        r == numbers@.contains(n),
{
    let mut i: usize = 0;
    while i < numbers.len()
        invariant
            i <= numbers.len(),
            forall|k: int| 0 <= k < i ==> numbers@[k] != n,
        decreases numbers.len() - i,
    {
        if numbers[i] == n {
            return true;
        }
        i = i + 1;
    }
    false
}

/// Where a value stands first in a selection; the length of the selection
/// where it stands nowhere.
pub open spec fn first_of(selected: Seq<Option<usize>>, value: Option<usize>) -> int
    decreases selected.len(),
{
    if selected.len() == 0 || selected[0] == value {
        0
    } else {
        1 + first_of(selected.drop_first(), value)
    }
}

/// A selection without the open places at its end.
pub open spec fn without_open_end(selected: Seq<Option<usize>>) -> Seq<Option<usize>>
    decreases selected.len(),
{
    if selected.len() > 0 && selected.last() is None {
        without_open_end(selected.drop_last())
    } else {
        selected
    }
}

/// A selection after a place was pressed that was selected: the first
/// selection of that place is opened, and open places at the end are dropped.
pub open spec fn opened(selected: Seq<Option<usize>>, place: usize) -> Seq<Option<usize>> {
    let first = first_of(selected, Some(place));
    if first < selected.len() {
        without_open_end(selected.update(first, None))
    } else {
        without_open_end(selected)
    }
}

/// A selection after a place was pressed that was not selected: it takes the
/// first open place, or a new one at the end.
pub open spec fn closed(selected: Seq<Option<usize>>, place: usize) -> Seq<Option<usize>> {
    let first = first_of(selected, None);
    if first < selected.len() {
        selected.update(first, Some(place))
    } else {
        selected.push(Some(place))
    }
}

/// Finds where a value stands first in a selection.
pub fn find_first(selected: &Vec<Option<usize>>, value: Option<usize>) -> (r: usize)
    ensures
        r == first_of(selected@, value),
        r <= selected@.len(),
        r < selected@.len() ==> selected@[r as int] == value,
{
    let mut i: usize = 0;
    assert(selected@.skip(0) =~= selected@);
    while i < selected.len() && !same_slot(&selected[i], &value)
        invariant
            i <= selected.len(),
            first_of(selected@, value) == i + first_of(selected@.skip(i as int), value),
        decreases selected.len() - i,
    {
        assert(selected@.skip(i as int).drop_first() =~= selected@.skip(i + 1));
        i = i + 1;
    }
    i
}

fn same_slot(a: &Option<usize>, b: &Option<usize>) -> (r: bool)
    ensures
        r == (*a == *b),
{
    match (a, b) {
        (Some(x), Some(y)) => *x == *y,
        (None, None) => true,
        _ => false,
    }
}

/// The place of a grid of `count` places that was pressed.
pub open spec fn grid_press(press: Option<Press>, count: usize) -> Option<usize> {
    match press {
        Some(p) => match hash_number(p.custom_id@) {
            Some(n) => if n < count {
                Some(n)
            } else {
                None
            },
            None => None,
        },
        None => None,
    }
}

/// Reads the place of a grid that was pressed.
pub fn read_grid_press(event: &Event, count: usize) -> (r: Option<usize>)
    ensures
        r == grid_press(event.press, count),
{
    match &event.press {
        Some(p) => match read_hash(p.custom_id.as_str()) {
            Some(n) => {
                if n < count {
                    Some(n)
                } else {
                    None
                }
            },
            None => None,
        },
        None => None,
    }
}

/// Opens the first selection of a place and drops open places at the end.
pub fn open_place(selected: &mut Vec<Option<usize>>, place: usize)
    ensures
        final(selected)@ == opened(old(selected)@, place),
{
    let first = find_first(selected, Some(place));
    if first < selected.len() {
        selected.set(first, None);
    }
    let ghost target = without_open_end(selected@);
    while selected.len() > 0 && selected[selected.len() - 1].is_none()
        invariant
            without_open_end(selected@) == target,
        decreases selected.len(),
    {
        selected.pop();
    }
}

/// Selects a place: at the first open place, or at the end.
pub fn close_place(selected: &mut Vec<Option<usize>>, place: usize)
    ensures
        final(selected)@ == closed(old(selected)@, place),
{
    let first = find_first(selected, None);
    if first < selected.len() {
        selected.set(first, Some(place));
    } else {
        selected.push(Some(place));
    }
}

impl GameMessage {
    /// Adds the menu of this name, after taking what the event picked in it.
    pub fn create_select(
        &mut self,
        event: &Event,
        name: String,
        items: Vec<String>,
        selected: &mut Vec<usize>,
    )
        requires
            items@.len() <= 64,
        ensures
            final(selected)@ == selected_after(old(selected)@, event.press, name@, items@.len()),
            final(self).fields == old(self).fields,
            final(self).components@.len() == old(self).components@.len() + 1,
            final(self).components@.drop_last() == old(self).components@,
            is_select_row(final(self).components@.last(), name@, items@, final(selected)@),
    {
        match &event.press {
            Some(p) => {
                if same_text(p.custom_id.as_str(), name.as_str()) {
                    *selected = read_picks(&p.values, items.len());
                }
            },
            None => {},
        }
        let ghost all = items@;
        let count = items.len();
        let mut options: Vec<SelectOption> = Vec::new();
        for label in it: items
            invariant
                it.seq() == all,
                count == all.len(),
                count <= 64,
                options@.len() == it.index(),
                forall|i: int|
                    0 <= i < it.index() ==> {
                        let option = #[trigger] options@[i];
                        &&& option.label == all[i]
                        &&& option.value@ == seq![mark_of(i)]
                        &&& option.description is None
                        &&& option.default == selected@.contains(i as usize)
                    },
        {
            let i = options.len();
            let mut value = String::new();
            push_char(&mut value, mark(i));
            assert(value@ =~= seq![mark_of(i as int)]);
            options.push(
                SelectOption {
                    label,
                    value,
                    description: None,
                    default: contains_number(selected, i),
                },
            );
        }
        let menu = TextSelectMenu {
            custom_id: name.clone(),
            options,
            placeholder: Some(name),
            min_values: 0,
            max_values: count,
            disabled: false,
        };
        let mut row: Vec<ActionRowComponent> = Vec::new();
        row.push(ActionRowComponent::TextSelectMenu(menu));
        let ghost before = self.components@;
        self.components.push(ActionRow::new(row));
        assert(self.components@.drop_last() =~= before);
    }

    /// Adds a grid of `count` places, after selecting or opening the place
    /// that the event pressed. `done` tells whether a selection is complete.
    ///
    /// Pressing a selected place opens it; the answer is then whether the
    /// selection was complete before. Pressing another place selects it; the
    /// answer is then whether the selection is complete now. Without a press
    /// the answer is no. Once the selection is complete, the places that are
    /// not selected are disabled.
    pub fn create_select_grid<F: Fn(&Vec<Option<usize>>) -> bool>(
        &mut self,
        event: &Event,
        count: usize,
        selected: &mut Vec<Option<usize>>,
        done: F,
    ) -> (changed: bool)
        requires
            count <= 64,
            forall|s: &Vec<Option<usize>>| call_requires(done, (s,)),
        ensures
            final(self).fields == old(self).fields,
            final(self).components@.len() == old(self).components@.len() + (count + 4) / 5,
            final(self).components@.take(old(self).components@.len() as int) == old(
                self,
            ).components@,
            exists|complete: bool|
                {
                    &&& is_grid(
                        final(self).components@.skip(old(self).components@.len() as int),
                        count as nat,
                        selection_button(final(selected)@, complete),
                    )
                    &&& match grid_press(event.press, count) {
                        Some(place) => if is_laid(old(selected)@, place as int) {
                            &&& final(selected)@ == opened(old(selected)@, place)
                            &&& call_ensures(done, (&*old(selected),), changed)
                            &&& !complete
                        } else {
                            &&& final(selected)@ == closed(old(selected)@, place)
                            &&& call_ensures(done, (&*final(selected),), changed)
                            &&& complete == changed
                        },
                        None => {
                            &&& *final(selected) == *old(selected)
                            &&& !changed
                            &&& call_ensures(done, (&*old(selected),), complete)
                        },
                    }
                },
    {
        let mut changed = false;
        let complete;
        match read_grid_press(event, count) {
            Some(place) => {
                if laid_down(selected, place) {
                    changed = done(selected);
                    complete = false;
                    open_place(selected, place);
                } else {
                    close_place(selected, place);
                    changed = done(selected);
                    complete = changed;
                }
            },
            None => {
                complete = done(selected);
            },
        }
        let rows = render_selection(count, selected, complete);
        let ghost before = self.components@;
        let ghost grid = rows@;
        let mut rows = rows;
        self.components.append(&mut rows);
        assert(self.components@.take(before.len() as int) =~= before);
        assert(self.components@.skip(before.len() as int) =~= grid);
        changed
    }
}

} // verus!
