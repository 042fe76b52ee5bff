use vim_engine::ast::action::Action;
use vim_engine::ast::command::ParsedCommand;
use vim_engine::ast::motion::Motion;
use vim_engine::ast::operator::Operator;
use vim_engine::ast::target::Target;
use vim_engine::error::ParseError;
use vim_engine::game::badge::{ModeBadge, Rgb};
use vim_engine::game::input::{to_ascii_lowercase, translate_key_event, LogicalKey};
use vim_engine::game::map::{GridPosition, MapBounds};
use vim_engine::game::movement::{process_movement_intention, MoveIntentionEvent};
use vim_engine::game::vim::{
    dispatch_command, handle_backspace, handle_insert, handle_motion, process_vim_input, ModeKind,
    VimState,
};
use vim_engine::parser::key::Key;
use vim_engine::parser::mapping::{parse_motion, parse_operator, saturating_mul};
use vim_engine::parser::modes::operator_pending::combined_context;
use vim_engine::parser::result::ParseResult;
use vim_engine::parser::validation::is_valid_register;
use vim_engine::parser::VimParser;
use vim_engine::state::{CommandContext, EditorState, Mode, PendingAction};

fn feed_all(parser: &mut VimParser, keys: &str) -> Vec<ParseResult> {
    keys.chars().map(|c| parser.feed(Key::Char(c))).collect()
}

#[test]
fn resolution_clears_context_after_invalid() {
    let mut parser = VimParser::new();
    let results = feed_all(&mut parser, "\"a3dz");
    assert_eq!(results[4], ParseResult::Invalid(ParseError::InvalidMotion));
    assert_eq!(parser.state.context, CommandContext::default());
    assert_eq!(parser.state.mode, Mode::Normal);
}

#[test]
fn resolution_clears_context_after_success() {
    let mut parser = VimParser::new();
    let results = feed_all(&mut parser, "\"b7j");
    assert_eq!(
        results[3],
        ParseResult::Success(ParsedCommand {
            context: CommandContext { count: Some(7), operator_count: None, register: Some('b'), pending_action: None },
            action: Action::Move(Motion::Down),
        })
    );
    assert_eq!(parser.state.context, CommandContext::default());
}

#[test]
fn change_enters_insert_other_operators_return_to_normal() {
    let mut parser = VimParser::new();
    feed_all(&mut parser, "cw");
    assert_eq!(parser.state.mode, Mode::Insert);

    let mut parser = VimParser::new();
    feed_all(&mut parser, "yy");
    assert_eq!(parser.state.mode, Mode::Normal);

    let mut parser = VimParser::new();
    feed_all(&mut parser, "dfx");
    assert_eq!(parser.state.mode, Mode::Normal);
}

#[test]
fn operator_count_is_product_of_counts() {
    let mut parser = VimParser::new();
    let results = feed_all(&mut parser, "2d3w");
    assert_eq!(
        results[3],
        ParseResult::Success(ParsedCommand {
            context: CommandContext { count: Some(6), operator_count: None, register: None, pending_action: None },
            action: Action::Operate(Operator::Delete, Target::Motion(Motion::WordForward)),
        })
    );
}

#[test]
fn operator_count_saturates() {
    let mut parser = VimParser::new();
    let results = feed_all(&mut parser, "99999999999999999999999d2w");
    match results.last().unwrap() {
        ParseResult::Success(cmd) => assert_eq!(cmd.context.count, Some(usize::MAX)),
        other => panic!("unexpected {:?}", other),
    }
}

#[test]
fn count_digits_accumulate_and_saturate() {
    let mut parser = VimParser::new();
    feed_all(&mut parser, "120");
    assert_eq!(parser.state.context.count, Some(120));

    let mut parser = VimParser::new();
    feed_all(&mut parser, "9999999999999999999999999");
    assert_eq!(parser.state.context.count, Some(usize::MAX));
}

#[test]
fn counts_typed_after_operator_count_as_motion_count() {
    let mut parser = VimParser::new();
    feed_all(&mut parser, "4d1");
    assert_eq!(parser.state.context.operator_count, Some(4));
    assert_eq!(parser.state.context.count, Some(1));
    // In Operator-pending mode a `0` after a digit extends the count.
    feed_all(&mut parser, "0");
    assert_eq!(parser.state.context.count, Some(10));
}

#[test]
fn invalid_input_aborts_the_operator() {
    let mut parser = VimParser::new();
    let results = feed_all(&mut parser, "dz");
    assert_eq!(results[1], ParseResult::Invalid(ParseError::InvalidMotion));
    assert_eq!(parser.state.mode, Mode::Normal);

    let mut parser = VimParser::new();
    parser.feed(Key::Char('y'));
    let r = parser.feed(Key::Esc);
    assert_eq!(r, ParseResult::Invalid(ParseError::InvalidMotion));
    assert_eq!(parser.state.mode, Mode::Normal);
}

#[test]
fn unknown_key_in_normal_mode() {
    let mut parser = VimParser::new();
    assert_eq!(parser.feed(Key::Char('z')), ParseResult::Invalid(ParseError::UnknownCommand));
    assert_eq!(parser.feed(Key::Enter), ParseResult::Invalid(ParseError::UnknownCommand));
    assert_eq!(parser.state.mode, Mode::Normal);
}

#[test]
fn register_needs_a_register_name() {
    let mut parser = VimParser::new();
    parser.feed(Key::Char('d'));
    parser.feed(Key::Char('"'));
    assert_eq!(parser.feed(Key::Esc), ParseResult::Invalid(ParseError::UnknownCommand));
    assert_eq!(parser.state.mode, Mode::Normal);
    assert_eq!(parser.state.context, CommandContext::default());
}

#[test]
fn register_in_operator_pending_mode() {
    let mut parser = VimParser::new();
    let results = feed_all(&mut parser, "d\"_w");
    assert_eq!(
        results[3],
        ParseResult::Success(ParsedCommand {
            context: CommandContext { count: None, operator_count: None, register: Some('_'), pending_action: None },
            action: Action::Operate(Operator::Delete, Target::Motion(Motion::WordForward)),
        })
    );
}

#[test]
fn insert_mode_takes_every_key() {
    let mut parser = VimParser::new();
    feed_all(&mut parser, "cc");
    assert_eq!(parser.state.mode, Mode::Insert);
    assert_eq!(parser.feed(Key::Char('x')), ParseResult::Incomplete);
    assert_eq!(parser.feed(Key::Esc), ParseResult::Incomplete);
    assert_eq!(parser.state.mode, Mode::Insert);
}

#[test]
fn pending_motion_in_insert_mode_is_unknown() {
    let mut parser = VimParser::new();
    parser.state.mode = Mode::Insert;
    parser.state.context.pending_action = Some(PendingAction::FindForward);
    assert_eq!(parser.feed(Key::Char('x')), ParseResult::Invalid(ParseError::UnknownCommand));
    assert_eq!(parser.state.mode, Mode::Insert);
}

#[test]
fn text_object_needs_an_operator() {
    let mut parser = VimParser::new();
    parser.state.context.pending_action = Some(PendingAction::Inner);
    assert_eq!(parser.feed(Key::Char('w')), ParseResult::Invalid(ParseError::UnknownCommand));
    assert_eq!(parser.state.mode, Mode::Normal);
}

#[test]
fn backward_find_and_till() {
    let mut parser = VimParser::new();
    let results = feed_all(&mut parser, "Fq");
    assert_eq!(
        results[1],
        ParseResult::Success(ParsedCommand { context: CommandContext::default(), action: Action::Move(Motion::FindBackward('q')) })
    );
    let results = feed_all(&mut parser, "dTq");
    assert_eq!(
        results[2],
        ParseResult::Success(ParsedCommand {
            context: CommandContext::default(),
            action: Action::Operate(Operator::Delete, Target::Motion(Motion::TillBackward('q'))),
        })
    );
}

#[test]
fn pending_find_rejects_a_non_character() {
    let mut parser = VimParser::new();
    parser.feed(Key::Char('f'));
    assert_eq!(parser.feed(Key::Esc), ParseResult::Invalid(ParseError::InvalidMotion));
    assert_eq!(parser.state.context, CommandContext::default());
}

#[test]
fn arrow_keys_are_motions() {
    let mut parser = VimParser::new();
    assert_eq!(
        parser.feed(Key::Left),
        ParseResult::Success(ParsedCommand { context: CommandContext::default(), action: Action::Move(Motion::Left) })
    );
    parser.feed(Key::Char('d'));
    assert_eq!(
        parser.feed(Key::Down),
        ParseResult::Success(ParsedCommand {
            context: CommandContext::default(),
            action: Action::Operate(Operator::Delete, Target::Motion(Motion::Down)),
        })
    );
}

#[test]
fn visual_mode_escape_cancels() {
    let mut parser = VimParser::new();
    parser.state.mode = Mode::Visual;
    assert_eq!(parser.feed(Key::Char('x')), ParseResult::Invalid(ParseError::UnknownCommand));
    assert_eq!(parser.state.mode, Mode::Visual);
    assert_eq!(
        parser.feed(Key::Esc),
        ParseResult::Success(ParsedCommand { context: CommandContext::default(), action: Action::Cancel })
    );
    assert_eq!(parser.state.mode, Mode::Normal);
}

#[test]
fn visual_mode_does_not_support_pending_motions() {
    let mut parser = VimParser::new();
    parser.state.mode = Mode::Visual;
    parser.state.context.pending_action = Some(PendingAction::FindForward);
    assert!(!parser.supports(Key::Char('x')));
    assert!(parser.supports(Key::Esc));
    parser.state.context.pending_action = None;
    assert!(parser.supports(Key::Char('x')));
}

#[test]
fn reset_clears_everything() {
    let mut ctx = CommandContext { count: Some(3), operator_count: Some(2), register: Some('a'), pending_action: Some(PendingAction::Around) };
    ctx.reset();
    assert_eq!(ctx, CommandContext::default());
    let st = EditorState::default();
    assert_eq!(st.mode, Mode::Normal);
    assert_eq!(st.context, CommandContext::default());
}

#[test]
fn mapping_tables() {
    assert_eq!(parse_motion('h'), Some(Motion::Left));
    assert_eq!(parse_motion('0'), Some(Motion::StartOfLine));
    assert_eq!(parse_motion('x'), None);
    assert_eq!(parse_operator('c'), Some(Operator::Change));
    assert_eq!(parse_operator('x'), None);
    assert_eq!(saturating_mul(7, 6), 42);
    assert_eq!(saturating_mul(usize::MAX, 2), usize::MAX);
}

#[test]
fn combined_context_multiplies_counts() {
    let ctx = CommandContext { count: Some(5), operator_count: Some(3), register: Some('q'), pending_action: Some(PendingAction::Inner) };
    assert_eq!(
        combined_context(&ctx),
        CommandContext { count: Some(15), operator_count: None, register: Some('q'), pending_action: None }
    );
    let ctx = CommandContext { count: None, operator_count: Some(3), register: None, pending_action: None };
    assert_eq!(combined_context(&ctx).count, Some(3));
}

#[test]
fn register_names() {
    for c in ['a', 'Z', '0', '9', '"', '-', '_', '+', '*', '~', '=', '/', ':', '.', '%', '#'] {
        assert!(is_valid_register(c), "{c}");
    }
    for c in [' ', '!', '@', '\n', 'é'] {
        assert!(!is_valid_register(c), "{c}");
    }
}

#[test]
fn obstacles_block_moves() {
    let mut bounds = MapBounds::default();
    bounds.obstacles.push((1, 0));
    assert!(!bounds.is_passable(1, 0));
    assert!(bounds.is_passable(2, 0));
    assert!(!bounds.is_passable(8, 0));
    assert!(!bounds.is_passable(0, 6));
    let mut pos = GridPosition { col: 0, row: 0 };
    process_movement_intention(
        &bounds,
        &mut pos,
        &[MoveIntentionEvent { d_col: 1, d_row: 0 }, MoveIntentionEvent { d_col: 0, d_row: 1 }],
    );
    assert_eq!(pos, GridPosition { col: 0, row: 1 });
}

#[test]
fn moves_never_leave_the_passable_area() {
    let bounds = MapBounds::default();
    let mut pos = GridPosition { col: 7, row: 5 };
    let events: Vec<MoveIntentionEvent> = (0..20)
        .map(|i| MoveIntentionEvent { d_col: if i % 2 == 0 { 1 } else { 0 }, d_row: if i % 3 == 0 { 1 } else { 0 } })
        .collect();
    process_movement_intention(&bounds, &mut pos, &events);
    assert!(bounds.is_passable(pos.col, pos.row));
    assert_eq!(pos, GridPosition { col: 7, row: 5 });
}

#[test]
fn overflowing_move_is_refused() {
    let bounds = MapBounds { min_col: i32::MIN, max_col: i32::MAX, min_row: 0, max_row: 5, enemy_spawn_cols: 0, obstacles: Vec::new() };
    let mut pos = GridPosition { col: i32::MAX, row: 0 };
    process_movement_intention(&bounds, &mut pos, &[MoveIntentionEvent { d_col: 1, d_row: 0 }]);
    assert_eq!(pos, GridPosition { col: i32::MAX, row: 0 });
}

#[test]
fn motions_give_grid_steps() {
    assert_eq!(handle_motion(Motion::Left), Some(MoveIntentionEvent { d_col: -1, d_row: 0 }));
    assert_eq!(handle_motion(Motion::Right), Some(MoveIntentionEvent { d_col: 1, d_row: 0 }));
    assert_eq!(handle_motion(Motion::Up), Some(MoveIntentionEvent { d_col: 0, d_row: -1 }));
    assert_eq!(handle_motion(Motion::Down), Some(MoveIntentionEvent { d_col: 0, d_row: 1 }));
    assert_eq!(handle_motion(Motion::WordForward), None);
}

#[test]
fn editing_the_buffer() {
    let mut vim_state = VimState::default();
    handle_insert(&mut vim_state, String::from("ab"));
    assert_eq!(vim_state.buffer, "ab");
    handle_backspace(&mut vim_state);
    assert_eq!(vim_state.buffer, "a");
    handle_backspace(&mut vim_state);
    handle_backspace(&mut vim_state);
    assert_eq!(vim_state.buffer, "");

    let mv = dispatch_command(
        &mut vim_state,
        ParsedCommand { context: CommandContext::default(), action: Action::Insert(String::from("xyz")) },
    );
    assert_eq!(mv, None);
    assert_eq!(vim_state.buffer, "xyz");
    let mv = dispatch_command(
        &mut vim_state,
        ParsedCommand { context: CommandContext::default(), action: Action::Backspace },
    );
    assert_eq!(mv, None);
    assert_eq!(vim_state.buffer, "xy");
    let mv = dispatch_command(
        &mut vim_state,
        ParsedCommand { context: CommandContext::default(), action: Action::Move(Motion::Up) },
    );
    assert_eq!(mv, Some(MoveIntentionEvent { d_col: 0, d_row: -1 }));
    assert_eq!(vim_state.buffer, "xy");
}

#[test]
fn keys_drive_the_player() {
    let mut vim_state = VimState::default();
    let keys: Vec<Key> = "llj3hdw".chars().map(Key::Char).collect();
    let moves = process_vim_input(&mut vim_state, &keys);
    assert_eq!(
        moves,
        vec![
            MoveIntentionEvent { d_col: 1, d_row: 0 },
            MoveIntentionEvent { d_col: 1, d_row: 0 },
            MoveIntentionEvent { d_col: 0, d_row: 1 },
            MoveIntentionEvent { d_col: -1, d_row: 0 },
        ]
    );
    assert_eq!(vim_state.parser.state.mode, Mode::Normal);
    assert_eq!(vim_state.buffer, "");
}

#[test]
fn mode_summary() {
    let mut vim_state = VimState::default();
    assert_eq!(vim_state.mode_kind(), ModeKind::Normal);
    vim_state.parser.feed(Key::Char('y'));
    assert_eq!(vim_state.mode_kind(), ModeKind::OperatorPending(String::from("Yank")));
    let badge = ModeBadge::from_mode(&vim_state);
    assert_eq!(badge.label, "OPERATOR");
    assert_eq!(badge.bg, Rgb { r: 140, g: 80, b: 20 });
    assert_eq!(badge.fg, Rgb { r: 255, g: 210, b: 140 });
    vim_state.parser.feed(Key::Char('c'));
    assert_eq!(vim_state.mode_kind(), ModeKind::Normal);
    vim_state.parser.feed(Key::Char('c'));
    vim_state.parser.feed(Key::Char('c'));
    assert_eq!(vim_state.mode_kind(), ModeKind::Insert);
    assert_eq!(ModeBadge::from_mode(&vim_state).label, "INSERT");
    vim_state.parser.state.mode = Mode::Visual;
    assert_eq!(vim_state.mode_kind(), ModeKind::Visual);
    assert_eq!(ModeBadge::from_mode(&vim_state).label, "VISUAL");
}

#[test]
fn keyboard_events_become_keys() {
    assert_eq!(translate_key_event(true, &LogicalKey::Character(String::from("a")), false), Some(Key::Char('a')));
    assert_eq!(translate_key_event(true, &LogicalKey::Character(String::from("R")), true), Some(Key::Ctrl('r')));
    assert_eq!(translate_key_event(true, &LogicalKey::Character(String::from("é")), false), Some(Key::Char('é')));
    assert_eq!(translate_key_event(true, &LogicalKey::Character(String::from("xy")), false), Some(Key::Char('x')));
    assert_eq!(translate_key_event(true, &LogicalKey::Character(String::new()), false), None);
    assert_eq!(translate_key_event(false, &LogicalKey::Character(String::from("a")), false), None);
    assert_eq!(translate_key_event(true, &LogicalKey::Escape, false), Some(Key::Esc));
    assert_eq!(translate_key_event(true, &LogicalKey::Enter, false), Some(Key::Enter));
    assert_eq!(translate_key_event(true, &LogicalKey::Backspace, true), Some(Key::Backspace));
    assert_eq!(translate_key_event(true, &LogicalKey::Other, false), None);
    assert_eq!(to_ascii_lowercase('Q'), 'q');
    assert_eq!(to_ascii_lowercase('1'), '1');
}

#[test]
fn typed_count_is_decimal_in_operator_pending_mode() {
    let mut parser = VimParser::new();
    feed_all(&mut parser, "c4096");
    assert_eq!(parser.state.mode, Mode::OperatorPending(Operator::Change));
    assert_eq!(parser.state.context.count, Some(4096));
    assert_eq!(parser.state.context.operator_count, None);
}
