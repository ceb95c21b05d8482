use std::sync::Arc;

use discord::cah::cards::{Card, CardData, CardType, Pack, PackData, Packs, Player, PlayerKind, White};
use discord::cah::deal::{draw, keep, laid_down, lay};
use discord::cah::format::find_blank;
use discord::cah::round::{
    first_user, list_users, pick_packs, Ingame, Refusal, CAH, NO_ANSWERS, NO_NEXT_ANSWERS,
    NO_NEXT_PROMPT, NO_PROMPTS, NO_USER, TOO_FEW,
};
use discord::cah::setup::{write_names, Action, Panel, Setup};
use discord::game::panel::ActionResponse;
use discord::markup::{DiscordFormatter, DisplayDiscord, InlineCodeState};
use discord::resource::Snowflake;
use discord::text::chars_of;
use discord::user::User;

fn raw(text: &str) -> CardData {
    CardData::Raw(text.to_string())
}

fn base() -> Arc<Pack> {
    Arc::new(Pack {
        name: "Base".to_string(),
        data: PackData {
            black: vec![
                raw("Why is _ so {}?"),
                raw("Make a haiku."),
                CardData::Full { text: "_ + _".to_string(), pick: 3 },
                raw("_ and _"),
            ],
            white: vec![raw("a cat."), raw("big _"), raw("dogs"), raw("x"), raw("y...")],
        },
    })
}

fn plain() -> Arc<Pack> {
    Arc::new(Pack {
        name: "Plain".to_string(),
        data: PackData { black: vec![raw("_ and _")], white: vec![raw("a"), raw("b"), raw("c")] },
    })
}

fn packs() -> Packs {
    Packs(vec![base()])
}

fn someone() -> PlayerKind {
    PlayerKind::User(Snowflake::new(5))
}

fn black(card: u32) -> Card<true> {
    Card { pack: 0, card, player: someone() }
}

fn white(card: u32) -> White {
    Card { pack: 0, card, player: someone() }
}

fn user(id: u64) -> User {
    User { id: Snowflake::new(id), username: "u".to_string() }
}

#[test]
fn blanks_of_cards() {
    let two = raw("a _ b _");
    assert_eq!((two.blanks_black(), two.blanks_white(), two.extra_blanks()), (2, 2, 0));
    let none = raw("no blanks");
    assert_eq!((none.blanks_black(), none.blanks_white(), none.extra_blanks()), (1, 0, 1));
    let full = CardData::Full { text: "x _".to_string(), pick: 3 };
    assert_eq!((full.blanks_black(), full.blanks_white(), full.extra_blanks()), (3, 3, 2));
    let exact = CardData::Full { text: "_ _".to_string(), pick: 2 };
    assert_eq!(exact.extra_blanks(), 0);
    assert_eq!(full.text(), "x _");
    assert_eq!(two.text(), "a _ b _");
}

#[test]
fn cards_are_found_in_their_pack() {
    let packs = packs();
    assert_eq!(black(0).text(&packs), "Why is _ so {}?");
    assert_eq!(white(4).text(&packs), "y...");
    assert_eq!(black(0).card_type(), CardType::Black);
    assert_eq!(white(0).card_type(), CardType::White);
    assert_eq!(packs.index(true, 0, 1).text(), "Make a haiku.");
    assert_eq!(packs.index(false, 0, 1).text(), "big _");
    assert_eq!(packs.count(true), 4);
    assert_eq!(packs.count(false), 5);
}

#[test]
fn cards_are_numbered_through_the_packs() {
    let empty = Arc::new(Pack { name: "Empty".to_string(), data: PackData { black: vec![], white: vec![] } });
    let packs = Packs(vec![empty.clone(), base(), empty.clone(), plain(), empty]);
    assert_eq!(packs.count(true), 5);
    assert_eq!(packs.count(false), 8);
    assert_eq!(packs.locate(true, 0), (1, 0));
    assert_eq!(packs.locate(true, 3), (1, 3));
    assert_eq!(packs.locate(true, 4), (3, 0));
    assert_eq!(packs.locate(false, 4), (1, 4));
    assert_eq!(packs.locate(false, 5), (3, 0));
    assert_eq!(packs.locate(false, 7), (3, 2));
    assert_eq!(Packs(vec![]).count(true), 0);
}

#[test]
fn is_filled_counts_blanks_and_answers() {
    let packs = packs();
    let prompt = black(3);
    assert!(prompt.is_filled(&packs, &vec![Some(white(0)), Some(white(2))]));
    assert!(!prompt.is_filled(&packs, &vec![Some(white(0))]));
    assert!(!prompt.is_filled(&packs, &vec![]));
    assert!(!prompt.is_filled(&packs, &vec![Some(white(0)), None]));
    assert!(!prompt.is_filled(&packs, &vec![None, Some(white(0)), Some(white(2))]));
    assert!(!prompt.is_filled(&packs, &vec![Some(white(0)), Some(white(2)), Some(white(3))]));
    assert!(prompt.is_filled(&packs, &vec![Some(white(1)), Some(white(2)), Some(white(3))]));
    assert!(!prompt.is_filled(&packs, &vec![Some(white(1)), Some(white(2))]));
    assert!(black(1).is_filled(&packs, &vec![Some(white(0))]));
    assert!(!black(1).is_filled(&packs, &vec![]));
    assert!(black(2).is_filled(&packs, &vec![Some(white(0)), Some(white(2)), Some(white(3))]));
    assert!(white(0).is_filled(&packs, &vec![]));
    assert!(white(1).is_filled(&packs, &vec![Some(white(0))]));
    assert!(!white(1).is_filled(&packs, &vec![]));
}

#[test]
fn fill_sets_answers_and_names_into_a_prompt() {
    let packs = packs();
    assert_eq!(black(0).fill(&packs, &vec![Some(white(0))]), "Why is ``a cat`` so <@5> ?");
    assert_eq!(black(0).fill(&packs, &vec![None]), "Why is\\_so <@5> ?");
    assert_eq!(black(0).fill(&packs, &vec![]), "Why is\\_so <@5> ?");
    let by_rando: Card<true> = Card { pack: 0, card: 0, player: PlayerKind::Rando(0) };
    assert_eq!(
        by_rando.fill(&packs, &vec![Some(white(0))]),
        "Why is ``a cat`` so ``Rando Cardrissian #1`` ?"
    );
}

#[test]
fn fill_sets_answers_into_answers() {
    let packs = packs();
    assert_eq!(
        black(3).fill(&packs, &vec![Some(white(1)), Some(white(2)), Some(white(3))]),
        " ``big`` ``dogs``  and ``x`` "
    );
    assert_eq!(black(3).fill(&packs, &vec![Some(white(2)), Some(white(3))]), " ``dogs`` and ``x`` ");
    assert_eq!(black(3).fill(&packs, &vec![Some(white(2))]), " ``dogs`` and\\_");
}

#[test]
fn fill_adds_answers_beyond_the_blanks() {
    let packs = packs();
    assert_eq!(black(1).fill(&packs, &vec![Some(white(0))]), "Make a haiku. ``a cat``");
    assert_eq!(black(1).fill(&packs, &vec![]), "Make a haiku.");
    assert_eq!(black(1).fill(&packs, &vec![None, Some(white(0))]), "Make a haiku.");
    assert_eq!(
        black(2).fill(&packs, &vec![Some(white(2)), Some(white(3)), Some(white(4))]),
        " ``dogs`` + ``x``  ``y``"
    );
}

#[test]
fn answers_are_code_without_their_full_stop() {
    let packs = packs();
    assert_eq!(white(0).fill(&packs, &vec![]), "``a cat``");
    assert_eq!(white(4).fill(&packs, &vec![]), "``y``");
    assert_eq!(white(1).fill(&packs, &vec![]), "``big_``");
    assert_eq!(white(1).fill(&packs, &vec![Some(white(2))]), "``big`` ``dogs`` ");
}

#[test]
fn fmt_moves_the_cursor_past_what_it_used() {
    let packs = packs();
    let answers = vec![Some(white(1)), Some(white(2)), Some(white(3)), Some(white(0))];
    let mut cursor = 0;
    let mut f = DiscordFormatter::new();
    black(3).fmt(&packs, &answers, &mut cursor, &mut f);
    assert_eq!(cursor, 3);
    assert_eq!(f.state(), InlineCodeState::Outside);
    let mut cursor = 3;
    let mut f = DiscordFormatter::new();
    white(1).fmt(&packs, &answers, &mut cursor, &mut f);
    assert_eq!(cursor, 4);
    assert_eq!(f.state(), InlineCodeState::Outside);
    assert_eq!(f.finish(), "``big`` ``a cat`` ");
    assert_eq!(find_blank(&chars_of("ab{c_"), 0, 5), 2);
    assert_eq!(find_blank(&chars_of("ab{c_"), 3, 5), 4);
    assert_eq!(find_blank(&chars_of("abc"), 0, 3), 3);
}

#[test]
fn players_are_named_and_shown() {
    assert_eq!(someone().to_text(), "<@5>");
    assert_eq!(PlayerKind::Rando(0).to_text(), "``Rando Cardrissian #1``");
    assert_eq!(PlayerKind::Rando(41).to_text(), "``Rando Cardrissian #42``");
    let mut f = DiscordFormatter::new();
    DisplayDiscord::fmt(&someone(), &mut f);
    assert_eq!(f.finish(), "<@5>");
    let mut f = DiscordFormatter::new();
    PlayerKind::Rando(2).show(&mut f);
    assert_eq!(f.state(), InlineCodeState::Ended);
    assert_eq!(f.finish(), "``Rando Cardrissian #3``");
    assert!(someone().is_user());
    assert!(!PlayerKind::Rando(0).is_user());
    assert!(someone().is(&PlayerKind::User(Snowflake::new(5))));
    assert!(!someone().is(&PlayerKind::User(Snowflake::new(6))));
    assert!(!someone().is(&PlayerKind::Rando(5)));
    assert!(PlayerKind::Rando(5).is(&PlayerKind::Rando(5)));
    assert_eq!(write_names(&vec![]), "");
    assert_eq!(write_names(&vec![someone(), PlayerKind::Rando(0)]), "<@5>\n``Rando Cardrissian #1``");
}

#[test]
fn a_new_player_has_nothing() {
    let p = Player::new(someone());
    assert_eq!(p.points, 0);
    assert!(p.hand.is_empty());
    assert!(p.selected.is_empty());
    assert!(p.selected().is_empty());
    let p = Player { kind: someone(), points: 0, hand: vec![white(2), white(3)], selected: vec![Some(1), None, Some(0)] };
    let laid = p.selected();
    assert_eq!(laid.len(), 3);
    assert_eq!(laid[0].unwrap().card, 3);
    assert!(laid[1].is_none());
    assert_eq!(laid[2].unwrap().card, 2);
}

#[test]
fn keep_takes_out_what_was_laid_down() {
    let hand = vec![white(0), white(1), white(2), white(3)];
    let kept = keep(&hand, &vec![Some(2), None, Some(0)]);
    assert_eq!(kept.iter().map(|c| c.card).collect::<Vec<_>>(), vec![1, 3]);
    assert_eq!(keep(&hand, &vec![]).len(), 4);
    assert_eq!(keep(&hand, &vec![Some(9)]).len(), 4);
    assert!(laid_down(&vec![Some(2), None], 2));
    assert!(!laid_down(&vec![Some(2), None], 0));
    let laid = lay(&hand, &vec![Some(3), Some(1)]);
    assert_eq!(laid.iter().map(|c| c.unwrap().card).collect::<Vec<_>>(), vec![3, 1]);
}

#[test]
fn drawing_gives_a_card_of_the_packs() {
    let mut packs = Packs(vec![base(), plain()]);
    let players = vec![Player::new(someone()), Player::new(PlayerKind::Rando(0))];
    for _ in 0..50 {
        let card = packs.draw_black(&players).unwrap();
        assert!((card.pack == 0 && card.card < 4) || (card.pack == 1 && card.card < 1));
        assert!(players.iter().any(|p| p.kind.is(&card.player)));
        let card = packs.draw_white(&players).unwrap();
        assert!((card.pack == 0 && card.card < 5) || (card.pack == 1 && card.card < 3));
    }
    let mut none = Packs(vec![]);
    assert!(none.draw_black(&players).is_none());
    assert!(none.draw_white(&vec![]).is_none());
    let mut only_black = Packs(vec![Arc::new(Pack {
        name: "b".to_string(),
        data: PackData { black: vec![raw("_")], white: vec![] },
    })]);
    assert!(only_black.draw_white(&players).is_none());
    assert_eq!(only_black.draw_black(&players).unwrap().card, 0);
}

#[test]
fn drawing_reaches_every_card() {
    let mut packs = Packs(vec![plain()]);
    let players = vec![Player::new(someone())];
    let mut seen = [false; 3];
    for _ in 0..200 {
        seen[packs.draw_white(&players).unwrap().card as usize] = true;
    }
    assert_eq!(seen, [true, true, true]);
}

#[test]
fn dealing_fills_the_hand_of_a_user() {
    let mut packs = Packs(vec![plain()]);
    let prompt: Card<true> = Card { pack: 0, card: 0, player: someone() };
    let mut players = vec![Player::new(someone()), Player::new(PlayerKind::Rando(0))];
    assert!(draw(&mut players, 0, &mut packs, 4, prompt));
    assert_eq!(players[0].hand.len(), 4);
    assert!(players[0].selected.is_empty());
    assert!(players[1].hand.is_empty());
    let before: Vec<u32> = players[0].hand.iter().map(|c| c.card).collect();
    players[0].selected = vec![Some(2), Some(0)];
    players[0].points = 3;
    assert!(draw(&mut players, 0, &mut packs, 4, prompt));
    assert_eq!(players[0].hand.len(), 4);
    assert_eq!(players[0].hand[0].card, before[1]);
    assert_eq!(players[0].hand[1].card, before[3]);
    assert!(players[0].selected.is_empty());
    assert_eq!(players[0].points, 3);
    assert!(draw(&mut players, 0, &mut packs, 2, prompt));
    assert_eq!(players[0].hand.len(), 4);
}

#[test]
fn dealing_lets_a_random_player_answer() {
    let mut packs = Packs(vec![plain()]);
    let prompt: Card<true> = Card { pack: 0, card: 0, player: someone() };
    for _ in 0..20 {
        let mut players = vec![Player::new(someone()), Player::new(PlayerKind::Rando(0))];
        assert!(draw(&mut players, 1, &mut packs, 5, prompt));
        let rando = &players[1];
        assert_eq!(rando.hand.len(), 5);
        assert_eq!(rando.selected.len(), 2);
        let a = rando.selected[0].unwrap();
        let b = rando.selected[1].unwrap();
        assert!(a < 5 && b < 5 && a != b);
        assert!(prompt.is_filled(&packs, &rando.selected()));
    }
    let mut players = vec![Player::new(PlayerKind::Rando(0))];
    assert!(!draw(&mut players, 0, &mut packs, 1, prompt));
    assert_eq!(players[0].hand.len(), 1);
}

#[test]
fn dealing_fails_without_answers() {
    let mut packs = Packs(vec![Arc::new(Pack {
        name: "b".to_string(),
        data: PackData { black: vec![raw("_")], white: vec![] },
    })]);
    let prompt: Card<true> = Card { pack: 0, card: 0, player: someone() };
    let mut players = vec![Player::new(someone())];
    assert!(!draw(&mut players, 0, &mut packs, 3, prompt));
    assert!(players[0].hand.is_empty());
    assert!(draw(&mut players, 0, &mut packs, 0, prompt));
}

fn setup(users: Vec<u64>, bots: i32, selected: Vec<usize>) -> Setup {
    Setup {
        packs: Packs(vec![base(), plain()]),
        selected_packs: selected,
        bots,
        cards: 4,
        points: 2,
        users: users.into_iter().map(Snowflake::new).collect(),
    }
}

#[test]
fn players_are_users_then_bots() {
    let players = setup(vec![7, 8], 2, vec![0]).players();
    assert_eq!(players.len(), 4);
    assert!(players[0].is(&PlayerKind::User(Snowflake::new(7))));
    assert!(players[1].is(&PlayerKind::User(Snowflake::new(8))));
    assert!(players[2].is(&PlayerKind::Rando(0)));
    assert!(players[3].is(&PlayerKind::Rando(1)));
    assert!(setup(vec![], 0, vec![0]).players().is_empty());
    assert_eq!(setup(vec![1], -3, vec![0]).players().len(), 1);
    assert!(first_user(&players).unwrap().is(&PlayerKind::User(Snowflake::new(7))));
    assert!(first_user(&vec![PlayerKind::Rando(0)]).is_none());
}

#[test]
fn packs_are_picked_in_their_order() {
    let all = Packs(vec![base(), plain(), base()]);
    let picked = pick_packs(&all, &vec![2, 1]);
    assert_eq!(picked.0.len(), 2);
    assert_eq!(picked.0[0].name, "Plain");
    assert_eq!(picked.0[1].name, "Base");
    assert!(pick_packs(&all, &vec![]).0.is_empty());
    assert_eq!(pick_packs(&all, &vec![0, 0, 7]).0.len(), 1);
}

#[test]
fn a_game_starts_with_a_czar_a_prompt_and_full_hands() {
    let game = setup(vec![7, 8], 1, vec![1]).start().ok().unwrap();
    assert_eq!(game.cards, 4);
    assert_eq!(game.points, 2);
    assert_eq!(game.players.len(), 3);
    assert!(game.czar.is(&PlayerKind::User(Snowflake::new(7))));
    assert_eq!(game.packs.0.len(), 1);
    assert_eq!(game.packs.0[0].name, "Plain");
    assert_eq!((game.prompt.pack, game.prompt.card), (0, 0));
    for p in game.players.iter() {
        assert_eq!(p.hand.len(), 4);
        assert_eq!(p.points, 0);
    }
    assert!(game.players[0].selected.is_empty());
    assert!(game.players[1].selected.is_empty());
    assert_eq!(game.players[2].selected.len(), 2);
    assert_eq!(list_users(&game.players).len(), 2);
}

#[test]
fn a_game_does_not_start_without_what_it_needs() {
    assert_eq!(setup(vec![7], 0, vec![0]).start().err(), Some(Refusal::TooFew));
    assert_eq!(setup(vec![], 0, vec![0]).start().err(), Some(Refusal::TooFew));
    assert_eq!(setup(vec![], 1, vec![0]).start().err(), Some(Refusal::TooFew));
    assert_eq!(setup(vec![], 2, vec![0]).start().err(), Some(Refusal::NoUser));
    assert_eq!(setup(vec![7, 8], 0, vec![]).start().err(), Some(Refusal::NoPrompts));
    assert_eq!(setup(vec![], 2, vec![]).start().err(), Some(Refusal::NoUser));
    assert_eq!(setup(vec![7], 0, vec![]).start().err(), Some(Refusal::TooFew));
    let mut no_white = setup(vec![7, 8], 0, vec![0]);
    no_white.packs = Packs(vec![Arc::new(Pack {
        name: "b".to_string(),
        data: PackData { black: vec![raw("_")], white: vec![] },
    })]);
    assert_eq!(no_white.start().err(), Some(Refusal::NoAnswers));
    no_white.cards = 0;
    assert!(no_white.start().is_ok());
    no_white.bots = 1;
    assert_eq!(no_white.start().err(), Some(Refusal::NoAnswers));
    assert_eq!(Refusal::TooFew.message(), TOO_FEW);
    assert_eq!(Refusal::NoUser.message(), NO_USER);
    assert_eq!(Refusal::NoPrompts.message(), NO_PROMPTS);
    assert_eq!(Refusal::NoAnswers.message(), NO_ANSWERS);
    assert_eq!(Refusal::NoNextPrompt.message(), NO_NEXT_PROMPT);
    assert_eq!(Refusal::NoNextAnswers.message(), NO_NEXT_ANSWERS);
    assert_eq!(TOO_FEW, "not enough players");
    assert_eq!(NO_PROMPTS, "selected packs do not have any black cards");
    assert_eq!(NO_ANSWERS, "selected packs do not have enough white cards to start");
}

fn error_text(r: &ActionResponse<Panel>) -> &str {
    match r {
        ActionResponse::Error(msg) => {
            assert_eq!(msg.fields.len(), 1);
            assert_eq!(msg.fields[0].name, "Error");
            assert!(!msg.fields[0].inline);
            assert!(msg.components.is_empty());
            &msg.fields[0].value
        }
        _ => panic!("no error"),
    }
}

#[test]
fn new_game_is_in_setup() {
    match CAH::new(Packs(vec![base()]), user(7)) {
        CAH::Setup(s) => {
            assert_eq!(s.selected_packs, vec![0]);
            assert_eq!((s.bots, s.cards, s.points), (0, 10, 8));
            assert_eq!(s.users.len(), 1);
            assert_eq!(s.users[0].as_int(), 7);
        }
        _ => panic!("not in setup"),
    }
}

#[test]
fn done_ends_the_game_at_any_stage() {
    let mut game = CAH::Setup(setup(vec![7, 8], 0, vec![1]));
    assert!(matches!(game.on_action(Action::Done, Panel::Main, &user(7)), ActionResponse::Exit));
    assert!(matches!(game, CAH::Setup(_)));
    game.on_action(Action::Start, Panel::Main, &user(7));
    assert!(matches!(game, CAH::Write(_)));
    assert!(matches!(game.on_action(Action::Done, Panel::Main, &user(7)), ActionResponse::Exit));
    assert!(matches!(game, CAH::Write(_)));
}

#[test]
fn setup_takes_start_only() {
    let mut game = CAH::Setup(setup(vec![7], 0, vec![1]));
    for action in [Action::ShowHand, Action::ChangeHand, Action::Continue] {
        assert!(matches!(game.on_action(action, Panel::Main, &user(7)), ActionResponse::Nothing));
        assert!(matches!(game, CAH::Setup(_)));
    }
    let answer = game.on_action(Action::Start, Panel::Main, &user(7));
    assert_eq!(error_text(&answer), "not enough players");
    assert!(matches!(game, CAH::Setup(_)));
    let mut game = CAH::Setup(setup(vec![], 2, vec![1]));
    let answer = game.on_action(Action::Start, Panel::Main, &user(7));
    assert_eq!(
        error_text(&answer),
        "I know you want to witness the AI uprising, but you can't play a game with only Rando Cardrissian"
    );
    let mut game = CAH::Setup(setup(vec![7, 8], 0, vec![]));
    let answer = game.on_action(Action::Start, Panel::Main, &user(7));
    assert_eq!(error_text(&answer), "selected packs do not have any black cards");
}

#[test]
fn start_goes_to_writing_or_straight_to_reading() {
    let mut game = CAH::Setup(setup(vec![7, 8], 1, vec![1]));
    assert!(matches!(game.on_action(Action::Start, Panel::Main, &user(7)), ActionResponse::NextMain));
    assert!(matches!(game, CAH::Write(_)));
    let mut game = CAH::Setup(setup(vec![7], 2, vec![1]));
    assert!(matches!(game.on_action(Action::Start, Panel::Main, &user(7)), ActionResponse::NextMain));
    match game {
        CAH::Read(g) => {
            assert_eq!(g.players.len(), 3);
            assert!(g.everyone_done());
        }
        _ => panic!("not reading"),
    }
}

fn writing() -> Ingame {
    setup(vec![7, 8, 9], 0, vec![1]).start().ok().unwrap()
}

#[test]
fn writing_moves_on_once_everyone_is_done() {
    let mut game = CAH::Write(writing());
    assert!(matches!(
        game.on_action(Action::ShowHand, Panel::Main, &user(8)),
        ActionResponse::Reply(Panel::Hand)
    ));
    assert!(matches!(game.on_action(Action::Start, Panel::Main, &user(8)), ActionResponse::Nothing));
    assert!(matches!(game.on_action(Action::Continue, Panel::Main, &user(8)), ActionResponse::Nothing));
    assert!(matches!(game.on_action(Action::ChangeHand, Panel::Hand, &user(8)), ActionResponse::EditMain));
    if let CAH::Write(g) = &mut game {
        assert!(!g.everyone_done());
        g.players[1].selected = vec![Some(0), Some(1)];
        assert!(!g.everyone_done());
        g.players[2].selected = vec![Some(3), Some(2)];
        assert!(g.everyone_done());
    } else {
        panic!("not writing");
    }
    assert!(matches!(game.on_action(Action::ChangeHand, Panel::Hand, &user(8)), ActionResponse::NextMain));
    match &game {
        CAH::Read(g) => assert_eq!(g.players[1].selected, vec![Some(0), Some(1)]),
        _ => panic!("not reading"),
    }
}

#[test]
fn reading_moves_on_to_the_next_czar() {
    let mut g = writing();
    g.players[1].selected = vec![Some(0), Some(1)];
    g.players[2].selected = vec![Some(3), Some(2)];
    g.players[1].points = 1;
    let kept: Vec<u32> = vec![g.players[1].hand[2].card, g.players[1].hand[3].card];
    let mut game = CAH::Read(g);
    for action in [Action::Start, Action::ShowHand, Action::ChangeHand] {
        assert!(matches!(game.on_action(action, Panel::Main, &user(7)), ActionResponse::Nothing));
        assert!(matches!(game, CAH::Read(_)));
    }
    assert!(matches!(game.on_action(Action::Continue, Panel::Main, &user(7)), ActionResponse::NextMain));
    match &game {
        CAH::Write(g) => {
            assert!(g.czar.is(&PlayerKind::User(Snowflake::new(8))));
            assert_eq!(g.players.len(), 3);
            for p in g.players.iter() {
                assert_eq!(p.hand.len(), 4);
                assert!(p.selected.is_empty());
            }
            assert_eq!(g.players[1].points, 1);
            assert_eq!(g.players[1].hand[0].card, kept[0]);
            assert_eq!(g.players[1].hand[1].card, kept[1]);
        }
        _ => panic!("not writing"),
    }
}

#[test]
fn the_czar_comes_round_again() {
    let mut g = writing();
    let expected = [8u64, 9, 7, 8];
    for next in expected {
        assert!(g.next_round().is_ok());
        assert!(g.czar.is(&PlayerKind::User(Snowflake::new(next))));
    }
    let mut alone = setup(vec![7], 1, vec![1]).start().ok().unwrap();
    assert!(alone.next_round().is_ok());
    assert!(alone.czar.is(&PlayerKind::User(Snowflake::new(7))));
    let mut game = CAH::Read(alone);
    assert!(matches!(game.on_action(Action::Continue, Panel::Main, &user(7)), ActionResponse::NextMain));
    assert!(matches!(game, CAH::Read(_)));
}

#[test]
fn actions_and_panels_have_names() {
    for action in [Action::Start, Action::ShowHand, Action::ChangeHand, Action::Continue, Action::Done] {
        assert_eq!(Action::from_name(action.name()), Some(action));
    }
    assert_eq!(Action::ShowHand.name(), "ShowHand");
    assert_eq!(Action::from_name("start"), None);
    assert_eq!(Action::from_name(""), None);
    for panel in [Panel::Main, Panel::Hand] {
        assert_eq!(Panel::from_name(panel.name()), Some(panel));
    }
    assert_eq!(Panel::from_name("Other"), None);
    assert_eq!(Panel::default(), Panel::Main);
}

#[test]
fn one_user_and_one_bot_start_with_the_reading() {
    for _ in 0..20 {
        let pack = Arc::new(Pack {
            name: "P".to_string(),
            data: PackData { black: vec![raw("_")], white: vec![raw("a")] },
        });
        let mut game = CAH::Setup(Setup {
            packs: Packs(vec![pack]),
            selected_packs: vec![0],
            bots: 1,
            cards: 5,
            points: 1,
            users: vec![Snowflake::new(1)],
        });
        assert!(matches!(game.on_action(Action::Start, Panel::Main, &user(1)), ActionResponse::NextMain));
        match game {
            CAH::Read(g) => {
                assert!(g.czar.is(&PlayerKind::User(Snowflake::new(1))));
                assert_eq!(g.players.len(), 2);
                assert_eq!((g.cards, g.points), (5, 1));
                assert_eq!(g.players[0].hand.len(), 5);
                assert_eq!(g.players[1].hand.len(), 5);
                assert!(g.players[0].selected.is_empty());
                assert_eq!(g.players[1].selected.len(), 1);
            }
            _ => panic!("not reading"),
        }
    }
}

#[test]
fn a_bot_that_cannot_answer_keeps_the_game_from_starting() {
    let pack = Arc::new(Pack {
        name: "P".to_string(),
        data: PackData { black: vec![raw("_ _ _")], white: vec![raw("a")] },
    });
    let mut game = CAH::Setup(Setup {
        packs: Packs(vec![pack]),
        selected_packs: vec![0],
        bots: 1,
        cards: 2,
        points: 1,
        users: vec![Snowflake::new(1)],
    });
    let answer = game.on_action(Action::Start, Panel::Main, &user(1));
    assert_eq!(error_text(&answer), "selected packs do not have enough white cards to start");
    assert!(matches!(game, CAH::Setup(_)));
}

#[test]
fn the_czar_passes_over_bots_and_wraps_round() {
    let mut g = setup(vec![1, 2], 1, vec![1]).start().ok().unwrap();
    g.players.swap(1, 2);
    assert!(g.players[1].kind.is(&PlayerKind::Rando(0)));
    g.czar = PlayerKind::User(Snowflake::new(2));
    let mut game = CAH::Read(g);
    assert!(matches!(game.on_action(Action::Continue, Panel::Main, &user(2)), ActionResponse::NextMain));
    match &game {
        CAH::Write(j) => {
            assert!(j.czar.is(&PlayerKind::User(Snowflake::new(1))));
            assert_eq!(j.players.len(), 3);
            assert!(j.players[0].kind.is(&PlayerKind::User(Snowflake::new(1))));
            assert!(j.players[1].kind.is(&PlayerKind::Rando(0)));
            assert!(j.players[2].kind.is(&PlayerKind::User(Snowflake::new(2))));
        }
        _ => panic!("not writing"),
    }
}
