use std::sync::Arc;

use discord::cah::cards::{CardData, Pack, PackData, Packs, PlayerKind};
use discord::cah::panels::{fills_from, find_kind, list_answering, write_score, write_signed};
use discord::cah::round::{Ingame, CAH};
use discord::cah::setup::{Action, Panel, Setup};
use discord::game::grid::{render_choices, render_selection, rows_of_five, write_grid_id, ChoiceGrid, SelectionGrid};
use discord::game::options::{
    find_user, label_button, lobby_options, pick_entries, render_option, write_marked,
    write_mentions, Setup as Options, SetupOption,
};
use discord::game::flow::{plan, Step};
use discord::game::panel::{
    action_button, contains_user, copy_texts, join2, remove_user, signed_embed, ActionResponse,
    Event, Flow, GameMessage, Press,
};
use discord::game::select::{
    close_place, contains_number, find_first, open_place, read_grid_press, read_picks,
};
use discord::game::table::{mark, position, read_first, read_hash};
use discord::interaction::{MessageComponent, MessageInteraction, MessageInteractionToken};
use discord::kind;
use discord::message::{
    ActionRow, ActionRowComponent, Button, ButtonStyle, Embed, Field, Message, MessageIdentifier,
};
use discord::resource::Snowflake;
use discord::user::{PartialUser, User};

fn press(id: &str, user: u64) -> Event {
    Event { press: Some(Press { custom_id: id.to_string(), values: vec![], user: Snowflake::new(user) }) }
}

fn pick(id: &str, values: &[&str]) -> Event {
    Event {
        press: Some(Press {
            custom_id: id.to_string(),
            values: values.iter().map(|v| v.to_string()).collect(),
            user: Snowflake::new(1),
        }),
    }
}

fn action(c: &ActionRowComponent) -> (ButtonStyle, &str, &str, bool) {
    match c {
        ActionRowComponent::Button(Button::Action { style, custom_id, label, disabled }) => {
            (*style, custom_id.as_str(), label.as_deref().unwrap(), *disabled)
        }
        _ => panic!("no action button"),
    }
}

fn ids(users: &Vec<Snowflake<kind::User>>) -> Vec<u64> {
    users.iter().map(|u| u.as_int()).collect()
}

fn flakes(ids: &[u64]) -> Vec<Snowflake<kind::User>> {
    ids.iter().map(|&i| Snowflake::new(i)).collect()
}

#[test]
fn table_numbers_sixty_four_characters() {
    let table: Vec<char> =
        "ABCDEFGHIJKLMNOPQRSTUVWXYZabcdefghijklmnopqrstuvwxyz0123456789+/".chars().collect();
    assert_eq!(table.len(), 64);
    for (i, c) in table.iter().enumerate() {
        assert_eq!(mark(i), *c);
        assert_eq!(position(*c), Some(i));
    }
    for c in ['-', '_', ' ', '#', 'é', '='] {
        assert_eq!(position(c), None);
    }
    assert_eq!(read_first("Cx"), Some(2));
    assert_eq!(read_first(""), None);
    assert_eq!(read_first("#A"), None);
    assert_eq!(read_hash("#A"), Some(0));
    assert_eq!(read_hash("#/rest"), Some(63));
    assert_eq!(read_hash("#"), None);
    assert_eq!(read_hash("A#"), None);
    assert_eq!(read_hash("#-"), None);
    assert_eq!(write_grid_id(27), "#b");
    assert_eq!(write_marked(1, "d"), "Bd");
    assert_eq!(join2("a", "b"), "ab");
}

#[test]
fn flow_is_done_unless_it_goes_on() {
    assert!(Flow::Return(1).is_done());
    assert!(Flow::<u8>::Exit.is_done());
    assert!(!Flow::<u8>::Continue.is_done());
    assert!(matches!(Flow::from_option(Some(3)), Flow::Return(3)));
    assert!(matches!(Flow::<u8>::from_option(None), Flow::Continue));
}

#[test]
fn game_message_basics() {
    assert!(GameMessage::default().is_empty());
    assert!(!GameMessage::new(vec![Field::new("a", "b")], vec![]).is_empty());
    assert!(!GameMessage::new(vec![], vec![ActionRow::new(vec![])]).is_empty());
    let message = Message {
        id: MessageIdentifier::new(Snowflake::new(1), Snowflake::new(2)),
        author: PartialUser { id: Snowflake::new(3) },
        content: String::new(),
        embeds: vec![Embed::default().fields(vec![Field::new("a", "b")]), Embed::default()],
        components: vec![ActionRow::new(vec![])],
        attachments: vec![],
    };
    let panel = GameMessage::from(message);
    assert_eq!(panel.fields.len(), 1);
    assert_eq!(panel.fields[0].name, "a");
    assert_eq!(panel.components.len(), 1);
}

#[test]
fn events_know_what_was_pressed() {
    assert!(Event::none().press.is_none());
    assert!(!Event::none().is_press_of("x"));
    let event = press("join", 9);
    assert!(event.is_press_of("join"));
    assert!(!event.is_press_of("joint"));
    let interaction = MessageInteraction {
        data: MessageComponent { custom_id: "#B".to_string(), values: vec!["A".to_string()] },
        token: MessageInteractionToken { id: Snowflake::new(1), token: "t".to_string(), application_id: Snowflake::new(2) },
        user: User { id: Snowflake::new(9), username: "u".to_string() },
        channel_id: Snowflake::new(3),
        message: Message {
            id: MessageIdentifier::new(Snowflake::new(1), Snowflake::new(2)),
            author: PartialUser { id: Snowflake::new(3) },
            content: String::new(),
            embeds: vec![],
            components: vec![],
            attachments: vec![],
        },
    };
    let event = Event::component(&interaction);
    let p = event.press.as_ref().unwrap();
    assert_eq!(p.custom_id, "#B");
    assert_eq!(p.values, vec!["A".to_string()]);
    assert_eq!(p.user.as_int(), 9);
    assert_eq!(copy_texts(&vec!["a".to_string(), "b".to_string()]), vec!["a".to_string(), "b".to_string()]);
    let (c, who) = event.button(Button::Action {
        style: ButtonStyle::Primary,
        custom_id: "#B".to_string(),
        label: Some("l".to_string()),
        disabled: false,
    });
    assert_eq!(action(&c), (ButtonStyle::Primary, "#B", "l", false));
    assert_eq!(who.unwrap().as_int(), 9);
    let (_, who) = event.button(Button::Action {
        style: ButtonStyle::Primary,
        custom_id: "#C".to_string(),
        label: None,
        disabled: false,
    });
    assert!(who.is_none());
    let (_, who) = event.button(Button::Link { url: "#B".to_string(), label: None, disabled: false });
    assert!(who.is_none());
}

#[test]
fn append_action_fills_rows_of_buttons() {
    let mut msg = GameMessage::default();
    msg.append_action("Start", ButtonStyle::Primary, "Go".to_string());
    assert_eq!(msg.components.len(), 1);
    assert_eq!(action(&msg.components[0].components[0]), (ButtonStyle::Primary, "Start", "Go", false));
    for _ in 0..6 {
        msg.append_action("More", ButtonStyle::Danger, "More".to_string());
    }
    assert_eq!(msg.components.len(), 1);
    assert_eq!(msg.components[0].components.len(), 7);
    let mut msg = GameMessage::default();
    msg.create_select(&Event::none(), "Menu".to_string(), vec!["a".to_string()], &mut vec![]);
    msg.append_action("Next", ButtonStyle::Primary, "Next".to_string());
    assert_eq!(msg.components.len(), 2);
    assert_eq!(msg.components[0].components.len(), 1);
    assert_eq!(action(&msg.components[1].components[0]).1, "Next");
}

fn number_row(event: &Event, val: i32, min: i32, max: i32) -> (i32, Vec<(ButtonStyle, String, String, bool)>) {
    let mut msg = GameMessage::default();
    let mut val = val;
    msg.create_number(event, "Bots".to_string(), &mut val, min, max);
    assert_eq!(msg.components.len(), 1);
    let row = msg.components[0]
        .components
        .iter()
        .map(|c| {
            let (s, i, l, d) = action(c);
            (s, i.to_string(), l.to_string(), d)
        })
        .collect();
    (val, row)
}

#[test]
fn create_number_steps_within_bounds() {
    let (val, row) = number_row(&Event::none(), 3, 0, 5);
    assert_eq!(val, 3);
    assert_eq!(
        row,
        vec![
            (ButtonStyle::Primary, "Bots__label".to_string(), "Bots".to_string(), true),
            (ButtonStyle::Primary, "Bots__min".to_string(), "<".to_string(), false),
            (ButtonStyle::Secondary, "Bots".to_string(), "3".to_string(), false),
            (ButtonStyle::Primary, "Bots__max".to_string(), ">".to_string(), false),
        ]
    );
    assert_eq!(number_row(&press("Bots__min", 1), 3, 0, 5).0, 2);
    assert_eq!(number_row(&press("Bots__max", 1), 3, 0, 5).0, 4);
    assert_eq!(number_row(&press("Bots", 1), 3, 0, 5).0, 3);
    assert_eq!(number_row(&press("Cards__max", 1), 3, 0, 5).0, 3);
    let (val, row) = number_row(&press("Bots__min", 1), 0, 0, 5);
    assert_eq!(val, 0);
    assert!(row[1].3);
    assert!(!row[3].3);
    let (val, row) = number_row(&press("Bots__max", 1), 5, 0, 5);
    assert_eq!(val, 5);
    assert!(row[3].3);
    assert_eq!(number_row(&press("Bots__max", 1), 9, 0, 5).0, 5);
    assert_eq!(number_row(&press("Bots__min", 1), -4, 0, 5).0, 0);
    assert_eq!(number_row(&press("Bots__min", 1), i32::MIN, i32::MIN, 5).0, i32::MIN);
    assert_eq!(number_row(&press("Bots__max", 1), i32::MAX, 0, i32::MAX).0, i32::MAX);
    assert_eq!(number_row(&Event::none(), -7, -9, 5).1[2].2, "-7");
}

#[test]
fn create_join_lets_users_in_and_out() {
    let mut msg = GameMessage::default();
    let mut users = flakes(&[1, 2]);
    msg.create_join(&Event::none(), &mut users);
    assert_eq!(ids(&users), vec![1, 2]);
    assert_eq!(msg.components.len(), 1);
    let row = &msg.components[0].components;
    assert_eq!(action(&row[0]), (ButtonStyle::Success, "join", "Join", false));
    assert_eq!(action(&row[1]), (ButtonStyle::Danger, "leave", "Leave", false));
    msg.create_join(&press("join", 3), &mut users);
    assert_eq!(ids(&users), vec![1, 2, 3]);
    msg.create_join(&press("join", 2), &mut users);
    assert_eq!(ids(&users), vec![1, 2, 3]);
    msg.create_join(&press("leave", 1), &mut users);
    assert_eq!(ids(&users), vec![2, 3]);
    msg.create_join(&press("leave", 1), &mut users);
    assert_eq!(ids(&users), vec![2, 3]);
    msg.create_join(&press("other", 2), &mut users);
    assert_eq!(ids(&users), vec![2, 3]);
    assert_eq!(msg.components.len(), 6);
    assert!(contains_user(&users, Snowflake::new(3)));
    assert!(!contains_user(&users, Snowflake::new(1)));
    assert_eq!(ids(&remove_user(&flakes(&[1, 2, 1, 3]), Snowflake::new(1))), vec![2, 3]);
    assert_eq!(find_user(&flakes(&[4, 5, 4]), Snowflake::new(4)), 0);
    assert_eq!(find_user(&flakes(&[4, 5, 4]), Snowflake::new(5)), 1);
    assert_eq!(find_user(&flakes(&[4, 5, 4]), Snowflake::new(6)), 3);
}

#[test]
fn create_select_offers_items_and_takes_picks() {
    let items = || vec!["Base".to_string(), "Extra".to_string(), "More".to_string()];
    let mut msg = GameMessage::default();
    let mut selected = vec![2usize];
    msg.create_select(&Event::none(), "Packs".to_string(), items(), &mut selected);
    assert_eq!(selected, vec![2]);
    match &msg.components[0].components[0] {
        ActionRowComponent::TextSelectMenu(menu) => {
            assert_eq!(menu.custom_id, "Packs");
            assert_eq!(menu.placeholder.as_deref(), Some("Packs"));
            assert_eq!((menu.min_values, menu.max_values, menu.disabled), (0, 3, false));
            let shown: Vec<_> =
                menu.options.iter().map(|o| (o.label.as_str(), o.value.as_str(), o.default)).collect();
            assert_eq!(shown, vec![("Base", "A", false), ("Extra", "B", false), ("More", "C", true)]);
            assert!(menu.options.iter().all(|o| o.description.is_none()));
        }
        _ => panic!("no menu"),
    }
    msg.create_select(&pick("Packs", &["B", "A", "D", "", "-", "Cx"]), "Packs".to_string(), items(), &mut selected);
    assert_eq!(selected, vec![1, 0, 2]);
    msg.create_select(&pick("Other", &["A"]), "Packs".to_string(), items(), &mut selected);
    assert_eq!(selected, vec![1, 0, 2]);
    msg.create_select(&pick("Packs", &[]), "Packs".to_string(), items(), &mut selected);
    assert!(selected.is_empty());
    assert_eq!(read_picks(&vec!["C".to_string(), "A".to_string()], 2), vec![0]);
    assert!(contains_number(&vec![3, 1], 1));
    assert!(!contains_number(&vec![3, 1], 2));
}

fn grid_shape(rows: &Vec<ActionRow>) -> Vec<usize> {
    rows.iter().map(|r| r.components.len()).collect()
}

#[test]
fn grids_are_rows_of_five() {
    assert!(render_selection(0, &vec![], false).is_empty());
    assert_eq!(grid_shape(&render_selection(1, &vec![], false)), vec![1]);
    assert_eq!(grid_shape(&render_selection(5, &vec![], false)), vec![5]);
    assert_eq!(grid_shape(&render_selection(6, &vec![], false)), vec![5, 1]);
    assert_eq!(grid_shape(&render_selection(12, &vec![], false)), vec![5, 5, 2]);
    assert_eq!(grid_shape(&render_selection(64, &vec![], false)).len(), 13);
    let rows = rows_of_five((0..7).map(|i| action_button(ButtonStyle::Primary, i.to_string(), "l".to_string(), false)).collect());
    assert_eq!(grid_shape(&rows), vec![5, 2]);
    assert_eq!(action(&rows[1].components[1]).1, "6");
    assert_eq!(action(&rows[0].components[0]).1, "0");
}

#[test]
fn selection_grid_shows_what_is_selected() {
    let rows = render_selection(7, &vec![Some(5), None, Some(0)], true);
    assert_eq!(action(&rows[0].components[0]), (ButtonStyle::Success, "#A", "1", false));
    assert_eq!(action(&rows[0].components[1]), (ButtonStyle::Secondary, "#B", "2", true));
    assert_eq!(action(&rows[1].components[0]), (ButtonStyle::Success, "#F", "6", false));
    assert_eq!(action(&rows[1].components[1]), (ButtonStyle::Secondary, "#G", "7", true));
    let rows = render_selection(2, &vec![Some(1)], false);
    assert_eq!(action(&rows[0].components[0]), (ButtonStyle::Secondary, "#A", "1", false));
    let mut grid = SelectionGrid { count: 3, selected: vec![Some(1)], disable_unselected: false };
    assert_eq!(grid_shape(&grid.render()), vec![3]);
    assert!(matches!(grid.update("#C"), Flow::Return(2)));
    assert!(matches!(grid.update("C"), Flow::Continue));
    assert!(matches!(grid.update("#"), Flow::Continue));
    assert_eq!(grid.selected, vec![Some(1)]);
}

#[test]
fn choice_grid_shows_the_shuffled_choices() {
    let rows = render_choices(&vec![2, 0, 1, 63, 4, 5]);
    assert_eq!(grid_shape(&rows), vec![5, 1]);
    assert_eq!(action(&rows[0].components[0]), (ButtonStyle::Primary, "#C", "1", false));
    assert_eq!(action(&rows[0].components[3]), (ButtonStyle::Primary, "#/", "4", false));
    assert_eq!(action(&rows[1].components[0]), (ButtonStyle::Primary, "#F", "6", false));
    let mut grid = ChoiceGrid { shuffle: vec![1, 0] };
    assert_eq!(grid_shape(&grid.render()), vec![2]);
    assert!(matches!(grid.update("#B"), Flow::Return(1)));
    assert!(matches!(grid.update("x"), Flow::Continue));
}

#[test]
fn places_are_opened_and_closed() {
    let mut s = vec![Some(4), None, Some(2)];
    close_place(&mut s, 7);
    assert_eq!(s, vec![Some(4), Some(7), Some(2)]);
    close_place(&mut s, 1);
    assert_eq!(s, vec![Some(4), Some(7), Some(2), Some(1)]);
    open_place(&mut s, 7);
    assert_eq!(s, vec![Some(4), None, Some(2), Some(1)]);
    open_place(&mut s, 1);
    assert_eq!(s, vec![Some(4), None, Some(2)]);
    open_place(&mut s, 2);
    assert_eq!(s, vec![Some(4)]);
    open_place(&mut s, 9);
    assert_eq!(s, vec![Some(4)]);
    open_place(&mut s, 4);
    assert!(s.is_empty());
    let mut twice = vec![Some(3), Some(3), None];
    open_place(&mut twice, 3);
    assert_eq!(twice, vec![None, Some(3)]);
    assert_eq!(find_first(&vec![Some(1), None, None], None), 1);
    assert_eq!(find_first(&vec![Some(1)], None), 1);
    assert_eq!(find_first(&vec![Some(1), Some(2)], Some(2)), 1);
    assert_eq!(read_grid_press(&press("#C", 1), 3), Some(2));
    assert_eq!(read_grid_press(&press("#C", 1), 2), None);
    assert_eq!(read_grid_press(&press("C", 1), 3), None);
    assert_eq!(read_grid_press(&Event::none(), 3), None);
}

#[test]
fn select_grid_selects_and_opens() {
    let complete = |s: &Vec<Option<usize>>| s.iter().filter(|p| p.is_some()).count() == 2;
    let mut msg = GameMessage::default();
    let mut selected = vec![];
    assert!(!msg.create_select_grid(&Event::none(), 6, &mut selected, complete));
    assert!(selected.is_empty());
    assert_eq!(grid_shape(&msg.components), vec![5, 1]);
    assert_eq!(action(&msg.components[0].components[0]), (ButtonStyle::Secondary, "#A", "1", false));

    let mut msg = GameMessage::default();
    assert!(!msg.create_select_grid(&press("#C", 1), 6, &mut selected, complete));
    assert_eq!(selected, vec![Some(2)]);
    assert_eq!(action(&msg.components[0].components[2]), (ButtonStyle::Success, "#C", "3", false));
    assert_eq!(action(&msg.components[0].components[0]), (ButtonStyle::Secondary, "#A", "1", false));

    let mut msg = GameMessage::default();
    assert!(msg.create_select_grid(&press("#F", 1), 6, &mut selected, complete));
    assert_eq!(selected, vec![Some(2), Some(5)]);
    assert_eq!(action(&msg.components[1].components[0]), (ButtonStyle::Success, "#F", "6", false));
    assert_eq!(action(&msg.components[0].components[0]), (ButtonStyle::Secondary, "#A", "1", true));

    let mut msg = GameMessage::default();
    assert!(!msg.create_select_grid(&Event::none(), 6, &mut selected, complete));
    assert_eq!(action(&msg.components[0].components[0]), (ButtonStyle::Secondary, "#A", "1", true));

    let mut msg = GameMessage::default();
    assert!(msg.create_select_grid(&press("#C", 1), 6, &mut selected, complete));
    assert_eq!(selected, vec![None, Some(5)]);
    assert_eq!(action(&msg.components[0].components[0]), (ButtonStyle::Secondary, "#A", "1", false));
    assert_eq!(action(&msg.components[0].components[2]), (ButtonStyle::Secondary, "#C", "3", false));

    let mut msg = GameMessage::default();
    assert!(!msg.create_select_grid(&press("#G", 1), 6, &mut selected, complete));
    assert_eq!(selected, vec![None, Some(5)]);
    let mut msg = GameMessage::default();
    assert!(!msg.create_select_grid(&press("#F", 1), 6, &mut selected, complete));
    assert!(selected.is_empty());
}

fn options() -> Options {
    Options {
        options: vec![
            ("Packs".to_string(), SetupOption::MultiSelect(vec![("Base".to_string(), true), ("Extra".to_string(), false)])),
            ("Rules".to_string(), SetupOption::Flags(vec![("Rando".to_string(), true), ("Double".to_string(), false)])),
            ("Max points".to_string(), SetupOption::Number(1, 10, 8)),
            ("Players".to_string(), SetupOption::Players(flakes(&[7]))),
        ],
    }
}

#[test]
fn options_are_rendered_one_row_each() {
    let rows = options().render();
    assert_eq!(grid_shape(&rows), vec![1, 3, 4, 2]);
    match &rows[0].components[0] {
        ActionRowComponent::TextSelectMenu(menu) => {
            assert_eq!(menu.custom_id, "A");
            assert_eq!(menu.placeholder.as_deref(), Some("Packs"));
            assert_eq!((menu.min_values, menu.max_values), (0, 2));
            let shown: Vec<_> =
                menu.options.iter().map(|o| (o.label.as_str(), o.value.as_str(), o.default)).collect();
            assert_eq!(shown, vec![("Base", "A", true), ("Extra", "B", false)]);
        }
        _ => panic!("no menu"),
    }
    assert_eq!(action(&rows[1].components[0]), (ButtonStyle::Primary, "_label_B", "Rules", true));
    assert_eq!(action(&rows[1].components[1]), (ButtonStyle::Success, "BA", "Rando", false));
    assert_eq!(action(&rows[1].components[2]), (ButtonStyle::Secondary, "BB", "Double", false));
    assert_eq!(action(&rows[2].components[0]), (ButtonStyle::Primary, "_label_C", "Max points", true));
    assert_eq!(action(&rows[2].components[1]), (ButtonStyle::Primary, "Cd", "<", false));
    assert_eq!(action(&rows[2].components[2]), (ButtonStyle::Secondary, "Cv", "8", false));
    assert_eq!(action(&rows[2].components[3]), (ButtonStyle::Primary, "Ci", ">", false));
    assert_eq!(action(&rows[3].components[0]), (ButtonStyle::Success, "Dj", "Join", false));
    assert_eq!(action(&rows[3].components[1]), (ButtonStyle::Danger, "Dl", "Leave", false));
    let row = render_option(5, &"N".to_string(), &SetupOption::Number(3, 3, 3));
    assert!(action(&row.components[1]).3);
    assert!(action(&row.components[3]).3);
    assert_eq!(action(&label_button(63, &"x".to_string())), (ButtonStyle::Primary, "_label_/", "x", true));
    assert!(Options { options: vec![] }.render().is_empty());
}

fn number(o: &Options, at: usize) -> i32 {
    match o.options[at].1 {
        SetupOption::Number(_, _, v) => v,
        _ => panic!("no number"),
    }
}

fn flags(o: &Options, at: usize) -> Vec<bool> {
    match &o.options[at].1 {
        SetupOption::MultiSelect(m) | SetupOption::Flags(m) => m.iter().map(|e| e.1).collect(),
        _ => panic!("no flags"),
    }
}

fn players(o: &Options) -> Vec<u64> {
    match &o.options[3].1 {
        SetupOption::Players(u) => ids(u),
        _ => panic!("no players"),
    }
}

#[test]
fn options_take_presses() {
    let me = Snowflake::new(9);
    let none: Vec<String> = vec![];
    let mut o = options();
    assert!(matches!(o.update("Cd", &none, me), Flow::Return(())));
    assert_eq!(number(&o, 2), 7);
    assert!(matches!(o.update("Ci", &none, me), Flow::Return(())));
    assert!(matches!(o.update("Ci", &none, me), Flow::Return(())));
    assert!(matches!(o.update("Ci", &none, me), Flow::Return(())));
    assert_eq!(number(&o, 2), 10);
    assert!(matches!(o.update("Ci", &none, me), Flow::Continue));
    assert!(matches!(o.update("Cv", &none, me), Flow::Continue));
    assert!(matches!(o.update("C", &none, me), Flow::Continue));
    assert_eq!(number(&o, 2), 10);
    assert!(matches!(o.update("BB", &none, me), Flow::Return(())));
    assert_eq!(flags(&o, 1), vec![true, true]);
    assert!(matches!(o.update("BA", &none, me), Flow::Return(())));
    assert_eq!(flags(&o, 1), vec![false, true]);
    assert!(matches!(o.update("BC", &none, me), Flow::Continue));
    assert!(matches!(o.update("B", &none, me), Flow::Continue));
    assert!(matches!(o.update("B-", &none, me), Flow::Continue));
    assert!(matches!(o.update("A", &vec!["B".to_string(), "x".to_string(), "C".to_string()], me), Flow::Return(())));
    assert_eq!(flags(&o, 0), vec![false, true]);
    assert!(matches!(o.update("A", &none, me), Flow::Return(())));
    assert_eq!(flags(&o, 0), vec![false, false]);
    assert!(matches!(o.update("Dj", &none, me), Flow::Return(())));
    assert_eq!(players(&o), vec![7, 9]);
    assert!(matches!(o.update("Dj", &none, me), Flow::Continue));
    assert!(matches!(o.update("Dl", &none, Snowflake::new(7)), Flow::Return(())));
    assert_eq!(players(&o), vec![9]);
    assert!(matches!(o.update("Dl", &none, Snowflake::new(7)), Flow::Continue));
    assert!(matches!(o.update("Dx", &none, me), Flow::Continue));
    assert!(matches!(o.update("E", &none, me), Flow::Continue));
    assert!(matches!(o.update("", &none, me), Flow::Continue));
    assert!(matches!(o.update("-", &none, me), Flow::Continue));
    assert_eq!(players(&o), vec![9]);
    assert_eq!(o.options.len(), 4);
    assert_eq!(o.options[2].0, "Max points");
    assert_eq!(
        pick_entries(vec![("a".to_string(), true), ("b".to_string(), false)], &vec!["B".to_string()]),
        vec![("a".to_string(), false), ("b".to_string(), true)]
    );
}

fn raw(text: &str) -> CardData {
    CardData::Raw(text.to_string())
}

fn plain() -> Arc<Pack> {
    Arc::new(Pack {
        name: "Plain".to_string(),
        data: PackData { black: vec![raw("_ and\\n_")], white: vec![raw("a"), raw("b"), raw("c")] },
    })
}

fn lobby(users: &[u64], bots: i32) -> Setup {
    Setup {
        packs: Packs(vec![plain(), plain()]),
        selected_packs: vec![0],
        bots,
        cards: 4,
        points: 2,
        users: flakes(users),
    }
}

#[test]
fn setup_panel_shows_packs_numbers_and_players() {
    let mut setup = lobby(&[7], 1);
    let mut msg = GameMessage::default();
    assert_eq!(setup.create(&mut msg, &Event::none()), None);
    assert_eq!(grid_shape(&msg.components), vec![1, 4, 4, 4, 3]);
    assert_eq!(action(&msg.components[1].components[2]).1, "Bots");
    assert_eq!(action(&msg.components[1].components[2]).2, "1");
    assert_eq!(action(&msg.components[2].components[2]).2, "4");
    assert_eq!(action(&msg.components[3].components[2]).2, "2");
    assert!(action(&msg.components[2].components[1]).3 == false);
    assert_eq!(action(&msg.components[4].components[0]).1, "join");
    assert_eq!(action(&msg.components[4].components[2]), (ButtonStyle::Primary, "Start", "Start", false));
    assert_eq!(msg.fields.len(), 1);
    assert_eq!(msg.fields[0].name, "Players");
    assert_eq!(msg.fields[0].value, "<@7>\n``Rando Cardrissian #1``");
    let mut empty = lobby(&[], 0);
    let mut msg = GameMessage::default();
    empty.create(&mut msg, &Event::none());
    assert_eq!(msg.fields[0].value, "*None.*");
}

#[test]
fn setup_panel_takes_what_was_pressed() {
    let mut setup = lobby(&[7], 1);
    setup.create(&mut GameMessage::default(), &press("join", 8));
    assert_eq!(ids(&setup.users), vec![7, 8]);
    setup.create(&mut GameMessage::default(), &press("leave", 7));
    assert_eq!(ids(&setup.users), vec![8]);
    setup.create(&mut GameMessage::default(), &press("Bots__max", 8));
    assert_eq!((setup.bots, setup.cards, setup.points), (2, 4, 2));
    setup.create(&mut GameMessage::default(), &press("Cards__max", 8));
    assert_eq!(setup.cards, 5);
    setup.create(&mut GameMessage::default(), &press("Cards__min", 8));
    setup.create(&mut GameMessage::default(), &press("Cards__min", 8));
    assert_eq!(setup.cards, 5);
    setup.create(&mut GameMessage::default(), &press("Points__min", 8));
    setup.create(&mut GameMessage::default(), &press("Points__min", 8));
    assert_eq!(setup.points, 1);
    setup.cards = 25;
    setup.create(&mut GameMessage::default(), &press("Cards__max", 8));
    assert_eq!(setup.cards, 25);
    setup.create(&mut GameMessage::default(), &pick("Packs", &["B", "A", "C"]));
    assert_eq!(setup.selected_packs, vec![1, 0]);
}

fn game() -> Ingame {
    let mut g = lobby(&[7, 8, 9], 0).start().ok().unwrap();
    g.players[0].points = 1;
    g.players[1].points = 12;
    g
}

#[test]
fn main_panel_while_writing() {
    let mut g = game();
    g.players[1].selected = vec![Some(0), Some(1)];
    let mut msg = GameMessage::default();
    assert_eq!(g.create_write(&mut msg, &Event::none(), Panel::Main, Snowflake::new(8)), None);
    assert_eq!(msg.fields.len(), 2);
    assert_eq!(msg.fields[0].name, "Players");
    assert_eq!(msg.fields[0].value, "👑 ` 1` <@7>\n✅ `12` <@8>\n💭 ` 0` <@9>");
    assert_eq!(msg.fields[1].name, "Prompt");
    assert_eq!(msg.fields[1].value, "\\_ and\n \\_");
    assert_eq!(grid_shape(&msg.components), vec![1]);
    assert_eq!(action(&msg.components[0].components[0]), (ButtonStyle::Primary, "ShowHand", "Show Hand", false));
    assert_eq!(g.write_writing_list(), msg.fields[0].value);
    assert_eq!(write_score(&g.players[1]), "`12` <@8>");
    assert_eq!(write_signed("x", &g.players[0]), "x ` 1` <@7>");
}

#[test]
fn hand_panel_of_a_player() {
    let mut g = game();
    let hand: Vec<String> = g.players[1].hand.iter().map(|c| c.text(&g.packs).to_string()).collect();
    let mut msg = GameMessage::default();
    assert_eq!(g.create_write(&mut msg, &Event::none(), Panel::Hand, Snowflake::new(8)), None);
    assert_eq!(msg.fields.len(), 2);
    assert_eq!(msg.fields[0].name, "Answer");
    assert_eq!(msg.fields[0].value, "\\_and\\\\n\\_");
    assert_eq!(msg.fields[1].name, "Hand");
    assert_eq!(
        msg.fields[1].value,
        format!("1. ``{}``\n2. ``{}``\n3. ``{}``\n4. ``{}``", hand[0], hand[1], hand[2], hand[3])
    );
    assert_eq!(grid_shape(&msg.components), vec![4]);

    let mut msg = GameMessage::default();
    assert_eq!(g.create_write(&mut msg, &press("#B", 8), Panel::Hand, Snowflake::new(8)), None);
    assert_eq!(g.players[1].selected, vec![Some(1)]);
    assert_eq!(msg.fields[0].value, format!(" ``{}`` and\\\\n\\_", hand[1]));
    assert_eq!(action(&msg.components[0].components[1]), (ButtonStyle::Success, "#B", "2", false));

    let mut msg = GameMessage::default();
    let asked = g.create_write(&mut msg, &press("#D", 8), Panel::Hand, Snowflake::new(8));
    assert_eq!(asked, Some(Action::ChangeHand));
    assert_eq!(g.players[1].selected, vec![Some(1), Some(3)]);
    assert_eq!(msg.fields[0].value, format!(" ``{}`` and\\\\n ``{}`` ", hand[1], hand[3]));
    assert_eq!(action(&msg.components[0].components[0]), (ButtonStyle::Secondary, "#A", "1", true));
    assert!(fills_from(&g.packs, g.prompt, &g.players[1].hand, &g.players[1].selected));
    assert!(!fills_from(&g.packs, g.prompt, &g.players[1].hand, &vec![Some(1), Some(9)]));

    let mut msg = GameMessage::default();
    let asked = g.create_write(&mut msg, &press("#B", 8), Panel::Hand, Snowflake::new(8));
    assert_eq!(asked, Some(Action::ChangeHand));
    assert_eq!(g.players[1].selected, vec![None, Some(3)]);
}

#[test]
fn hand_panel_of_the_czar_and_of_a_stranger() {
    let mut g = game();
    let mut msg = GameMessage::default();
    assert_eq!(g.create_write(&mut msg, &press("#B", 7), Panel::Hand, Snowflake::new(7)), None);
    assert!(g.players[0].selected.is_empty());
    assert_eq!(msg.fields.len(), 1);
    assert_eq!(msg.fields[0].name, "Hand");
    assert!(msg.components.is_empty());
    let mut msg = GameMessage::default();
    assert_eq!(g.create_write(&mut msg, &press("#B", 5), Panel::Hand, Snowflake::new(5)), None);
    assert!(msg.is_empty());
    assert_eq!(find_kind(&g.players, &PlayerKind::User(Snowflake::new(9))), Some(2));
    assert_eq!(find_kind(&g.players, &PlayerKind::User(Snowflake::new(5))), None);
}

fn answered() -> Ingame {
    let mut g = game();
    g.players[1].selected = vec![Some(0), Some(1)];
    g.players[2].selected = vec![Some(2), Some(3)];
    g
}

#[test]
fn reading_panel_lists_the_answers_in_shuffled_order() {
    let mut g = answered();
    assert_eq!(list_answering(&g.players, &g.czar), vec![1, 2]);
    let order = g.random_indices();
    assert!(order == vec![1, 2] || order == vec![2, 1]);
    assert_eq!(g.random_indices(), order);
    let first = g.fill_for(&g.players[order[0]]);
    let second = g.fill_for(&g.players[order[1]]);
    let mut msg = GameMessage::default();
    assert_eq!(g.create_read(&mut msg, &Event::none()), None);
    assert_eq!(msg.fields.len(), 2);
    assert_eq!(msg.fields[0].name, "Players");
    assert_eq!(msg.fields[0].value, "👑 ` 1` <@7>\n✅ `12` <@8>\n✅ ` 0` <@9>");
    assert_eq!(msg.fields[1].name, "Answers");
    assert_eq!(msg.fields[1].value, format!("1. {}\n2. {}", first, second));
    assert_eq!(grid_shape(&msg.components), vec![2]);
    assert_eq!(action(&msg.components[0].components[0]), (ButtonStyle::Primary, "#A", "1", false));
    assert_eq!(action(&msg.components[0].components[1]), (ButtonStyle::Primary, "#B", "2", false));
    let mut msg = GameMessage::default();
    assert_eq!(g.create_read(&mut msg, &press("#A", 8)), None);
    assert_eq!(msg.fields[0].name, "Players");
    assert_eq!(msg.fields[1].name, "Answers");
    let mut msg = GameMessage::default();
    assert_eq!(g.create_read(&mut msg, &press("#C", 7)), None);
    assert_eq!(msg.fields[1].name, "Answers");
    assert_eq!(g.read_pick(&press("#B", 7)), Some(1));
    assert_eq!(g.read_pick(&press("#B", 8)), None);
    assert_eq!(g.read_pick(&press("#C", 7)), None);
    assert_eq!(g.read_pick(&Event::none()), None);
}

#[test]
fn the_order_of_the_answers_depends_on_the_prompt() {
    let mut g = lobby(&[1, 2, 3, 4, 5, 6, 7, 8], 0).start().ok().unwrap();
    let one = g.random_indices();
    let mut sorted = one.clone();
    sorted.sort();
    assert_eq!(sorted, vec![1, 2, 3, 4, 5, 6, 7]);
    let mut differs = false;
    for card in 1..40 {
        g.prompt.card = card;
        let other = g.random_indices();
        let mut sorted = other.clone();
        sorted.sort();
        assert_eq!(sorted, vec![1, 2, 3, 4, 5, 6, 7]);
        differs = differs || other != one;
    }
    assert!(differs);
}

#[test]
fn picking_an_answer_gives_a_point() {
    let mut g = answered();
    let order = g.random_indices();
    let winner = order[1];
    let answer = g.fill_for(&g.players[winner]);
    let before = g.players[winner].points;
    let name = g.players[winner].kind.to_text();
    let mut msg = GameMessage::default();
    g.points = before + 2;
    let asked = g.create_read(&mut msg, &press("#B", 7));
    assert_eq!(asked, None);
    assert_eq!(g.players[winner].points, before + 1);
    assert_eq!(g.players[order[0]].points, if order[0] == 1 { 12 } else { 0 });
    assert_eq!(g.players[0].points, 1);
    assert_eq!(msg.fields.len(), 2);
    assert_eq!(msg.fields[0].name, "Players");
    assert_eq!(msg.fields[0].value, g.write_scores());
    assert_eq!(msg.fields[1].name, "Round Winner");
    assert_eq!(msg.fields[1].value, format!("{}\n\n>>> {}", name, answer));
    assert_eq!(grid_shape(&msg.components), vec![1]);
    assert_eq!(action(&msg.components[0].components[0]), (ButtonStyle::Primary, "Continue", "Continue", false));
}

#[test]
fn enough_points_win_the_game() {
    let mut g = answered();
    let order = g.random_indices();
    let winner = order[0];
    let answer = g.fill_for(&g.players[winner]);
    let total = g.players[winner].points + 1;
    let name = g.players[winner].kind.to_text();
    g.points = total;
    let mut msg = GameMessage::default();
    assert_eq!(g.create_winner(&mut msg, 0), Some(Action::Done));
    assert_eq!(g.players[winner].points, total);
    assert_eq!(msg.fields.len(), 3);
    assert_eq!(msg.fields[0].name, "Players");
    assert_eq!(msg.fields[1].name, "We have a winner!");
    assert_eq!(msg.fields[1].value, format!("{} won the game with `{}` points!", name, total));
    assert_eq!(msg.fields[2].name, "Last words");
    assert_eq!(msg.fields[2].value, format!(">>> {}", answer));
    assert!(msg.components.is_empty());
    let mut top = answered();
    top.players[1].points = i32::MAX;
    top.players[2].points = i32::MAX;
    top.points = i32::MAX;
    assert_eq!(top.create_winner(&mut GameMessage::default(), 0), Some(Action::Done));
    assert_eq!(top.players[1].points, i32::MAX);
    assert_eq!(top.players[2].points, i32::MAX);
}

#[test]
fn panels_are_built_for_the_stage() {
    let me = Snowflake::new(7);
    let mut game = CAH::Setup(lobby(&[7, 8], 0));
    let mut msg = GameMessage::default();
    assert_eq!(game.create_panel(&mut msg, &Event::none(), Panel::Main, me), None);
    assert_eq!(msg.fields[0].name, "Players");
    assert_eq!(msg.components.len(), 5);
    assert!(matches!(game, CAH::Setup(_)));
    let mut game = CAH::Write(game_for_panels());
    let mut msg = GameMessage::default();
    assert_eq!(game.create_panel(&mut msg, &Event::none(), Panel::Main, me), None);
    assert_eq!(msg.fields[1].name, "Prompt");
    assert!(matches!(game, CAH::Write(_)));
    let mut game = CAH::Read(answered());
    let mut msg = GameMessage::default();
    assert_eq!(game.create_panel(&mut msg, &Event::none(), Panel::Main, me), None);
    assert_eq!(msg.fields[1].name, "Answers");
    assert!(matches!(game, CAH::Read(_)));
}

fn game_for_panels() -> Ingame {
    game()
}

fn steps_of(answer: ActionResponse<Panel>, on_main: bool, built: bool) -> (Vec<&'static str>, bool) {
    let (steps, over) = plan(answer, on_main, built);
    let names = steps
        .iter()
        .map(|s| match s {
            Step::UpdatePressed => "update",
            Step::UpdateToMain => "main",
            Step::EditMain => "edit",
            Step::DeleteReplies => "delete",
            Step::ReplyError(_) => "error",
            Step::ReplyPanel(Panel::Hand) => "hand",
            Step::ReplyPanel(Panel::Main) => "again",
        })
        .collect();
    (names, over)
}

#[test]
fn answers_are_turned_into_steps() {
    assert_eq!(steps_of(ActionResponse::Nothing, true, true), (vec!["update"], false));
    assert_eq!(steps_of(ActionResponse::Nothing, false, false), (vec![], false));
    assert_eq!(steps_of(ActionResponse::Exit, false, true), (vec!["delete", "main"], true));
    assert_eq!(
        steps_of(ActionResponse::Error(GameMessage::default()), true, false),
        (vec!["error"], false)
    );
    assert_eq!(steps_of(ActionResponse::NextMain, true, false), (vec!["delete", "main"], false));
    assert_eq!(steps_of(ActionResponse::NextMain, false, true), (vec!["update", "edit"], false));
    assert_eq!(steps_of(ActionResponse::EditMain, false, true), (vec!["update", "edit"], false));
    assert_eq!(steps_of(ActionResponse::EditMain, true, false), (vec!["edit"], false));
    assert_eq!(steps_of(ActionResponse::Reply(Panel::Hand), true, true), (vec!["hand"], false));
}

#[test]
fn lobby_has_the_start_button_beside_join_and_leave() {
    let lobby = lobby_options(Snowflake::new(7));
    assert_eq!(lobby.options.len(), 5);
    assert!(lobby.can_render());
    assert!(lobby.can_render_lobby());
    assert_eq!(number(&lobby, 2), 8);
    assert_eq!(number(&lobby, 3), 10);
    assert_eq!(flags(&lobby, 0), vec![true, false]);
    assert_eq!(flags(&lobby, 1), vec![true, true]);
    let panel = lobby.render_lobby();
    assert_eq!(grid_shape(&panel.components), vec![1, 3, 4, 4, 3]);
    assert_eq!(action(&panel.components[4].components[0]), (ButtonStyle::Success, "Ej", "Join", false));
    assert_eq!(action(&panel.components[4].components[1]), (ButtonStyle::Danger, "El", "Leave", false));
    assert_eq!(action(&panel.components[4].components[2]), (ButtonStyle::Primary, "Es", "Start", false));
    assert_eq!(action(&panel.components[3].components[2]), (ButtonStyle::Secondary, "Dv", "10", false));
    assert_eq!(panel.fields.len(), 1);
    assert_eq!(panel.fields[0].name, "Players");
    assert_eq!(panel.fields[0].value, "<@7>");
    let mut lobby = lobby;
    assert!(matches!(lobby.update("Ej", &vec![], Snowflake::new(8)), Flow::Return(())));
    assert_eq!(lobby.render_lobby().fields[0].value, "<@7>\n<@8>");
    lobby.update("El", &vec![], Snowflake::new(7));
    lobby.update("El", &vec![], Snowflake::new(8));
    assert_eq!(lobby.render_lobby().fields[0].value, "*None.*");
    assert_eq!(write_mentions(&flakes(&[1, 2])), "<@1>\n<@2>");
    assert!(!options().can_render_lobby());
    assert!(options().can_render());
    let wide = Options {
        options: vec![("F".to_string(), SetupOption::Flags(vec![("x".to_string(), true); 5]))],
    };
    assert!(!wide.can_render());
}

#[test]
fn embeds_are_signed_with_the_game() {
    let embed = signed_embed("Game", 0x00ff00, vec![Field::new("a", "b")]);
    assert_eq!(embed.author.unwrap().name, "Game");
    assert_eq!(embed.color, Some(0x00ff00));
    assert_eq!(embed.fields.len(), 1);
    assert!(embed.title.is_none() && embed.description.is_none() && embed.url.is_none());
}
