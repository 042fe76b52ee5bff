use vstd::prelude::*;
use crate::ast::action::Action;
use crate::ast::command::ParsedCommand;
use crate::ast::motion::Motion;
use crate::ast::operator::Operator;
use crate::game::movement::MoveIntentionEvent;
use crate::parser::{feed_step, feed_unsupported, VimParser};
use crate::parser::key::Key;
use crate::parser::result::ParseResult;
use crate::state::{EditorState, Mode};

verus! {

/// The editor: the command parser and the text typed so far.
pub struct VimState {
    pub parser: VimParser,
    pub buffer: String,
}

impl Default for VimState {
    fn default() -> (r: Self)
        ensures
            r.parser.state == EditorState::initial(),
            r.buffer@ == Seq::<char>::empty(),
    {
        VimState { parser: VimParser::new(), buffer: String::new() }
    }
}

/// A UI-facing summary of the current editor mode. It mirrors `Mode`, with
/// the waiting operator given by name.
#[derive(Debug, Clone, PartialEq, Eq)]
pub enum ModeKind {
    Normal,
    Insert,
    Visual,
    OperatorPending(String),
}

/// The name of an operator, as its debug form writes it.
pub open spec fn operator_name(op: Operator) -> Seq<char> {
    match op {
        Operator::Delete => "Delete"@,
        Operator::Yank => "Yank"@,
        Operator::Change => "Change"@,
        Operator::Indent => "Indent"@,
        Operator::Outdent => "Outdent"@,
        Operator::Format => "Format"@,
    }
}

/// The name of an operator.
pub fn operator_label(op: Operator) -> (r: String)
    ensures
        r@ == operator_name(op),
{
    match op {
        Operator::Delete => String::from_str("Delete"),
        Operator::Yank => String::from_str("Yank"),
        Operator::Change => String::from_str("Change"),
        Operator::Indent => String::from_str("Indent"),
        Operator::Outdent => String::from_str("Outdent"),
        Operator::Format => String::from_str("Format"),
    }
}

/// Whether `kind` summarises `mode`.
pub open spec fn summarises(kind: ModeKind, mode: Mode) -> bool {
    match mode {
        Mode::Normal => kind == ModeKind::Normal,
        Mode::Insert => kind == ModeKind::Insert,
        Mode::Visual => kind == ModeKind::Visual,
        Mode::OperatorPending(op) => kind matches ModeKind::OperatorPending(name) && name@ == operator_name(op),
    }
}

impl VimState {
    /// The current mode, for display.
    pub fn mode_kind(&self) -> (r: ModeKind)
        ensures
            summarises(r, self.parser.state.mode),
    {
        match self.parser.state.mode {
            Mode::Normal => ModeKind::Normal,
            Mode::Insert => ModeKind::Insert,
            Mode::Visual => ModeKind::Visual,
            Mode::OperatorPending(op) => ModeKind::OperatorPending(operator_label(op)),
        }
    }
}

/// `String::pop`: removes the last character of the string and returns it,
/// or returns `None` when the string is empty.
#[verifier::external_body]
fn string_pop(s: &mut String) -> (r: Option<char>)
    ensures
        old(s)@.len() == 0 ==> r is None && final(s)@ == old(s)@,
        old(s)@.len() > 0 ==> r == Some(old(s)@.last()) && final(s)@ == old(s)@.drop_last(),
{
    s.pop()
}

/// Appends typed text to the buffer.
pub fn handle_insert(vim_state: &mut VimState, text: String)
    ensures
        final(vim_state).buffer@ == old(vim_state).buffer@ + text@,
        final(vim_state).parser.state == old(vim_state).parser.state,
{
    vim_state.buffer.append(text.as_str());
}

/// The buffer after a backspace: its last character removed, if any.
pub open spec fn without_last(buffer: Seq<char>) -> Seq<char> {
    if buffer.len() == 0 {
        buffer
    } else {
        buffer.drop_last()
    }
}

/// Deletes the last character of the buffer, if any.
pub fn handle_backspace(vim_state: &mut VimState)
    ensures
        final(vim_state).buffer@ == without_last(old(vim_state).buffer@),
        final(vim_state).parser.state == old(vim_state).parser.state,
{
    let _ = string_pop(&mut vim_state.buffer);
}

/// A backspace takes back the insertion of one character.
pub proof fn law_backspace_undoes_one_char_insert(buffer: Seq<char>, text: Seq<char>)
    requires
        text.len() == 1,
    ensures
        without_last(buffer + text) == buffer,
{
    assert((buffer + text).drop_last() =~= buffer);
}

/// The grid step of a motion: the four directions move the player one
/// cell; other motions do not move it.
pub open spec fn motion_delta(motion: Motion) -> Option<MoveIntentionEvent> {
    match motion {
        Motion::Left => Some(MoveIntentionEvent { d_col: -1i32, d_row: 0 }),
        Motion::Down => Some(MoveIntentionEvent { d_col: 0, d_row: 1 }),
        Motion::Up => Some(MoveIntentionEvent { d_col: 0, d_row: -1i32 }),
        Motion::Right => Some(MoveIntentionEvent { d_col: 1, d_row: 0 }),
        _ => None,
    }
}

/// Turns a motion into a move request for the player.
pub fn handle_motion(motion: Motion) -> (r: Option<MoveIntentionEvent>)
    ensures
        r == motion_delta(motion),
{
    match motion {
        Motion::Left => Some(MoveIntentionEvent { d_col: -1, d_row: 0 }),
        Motion::Down => Some(MoveIntentionEvent { d_col: 0, d_row: 1 }),
        Motion::Up => Some(MoveIntentionEvent { d_col: 0, d_row: -1 }),
        Motion::Right => Some(MoveIntentionEvent { d_col: 1, d_row: 0 }),
        _ => None,
    }
}

/// The buffer after a command: typed text is appended, a backspace deletes
/// the last character, and every other command leaves it.
pub open spec fn buffer_after(buffer: Seq<char>, action: Action) -> Seq<char> {
    match action {
        Action::Insert(text) => buffer + text@,
        Action::Backspace => without_last(buffer),
        _ => buffer,
    }
}

/// The move request of a command: that of its motion for `Move`, none otherwise.
pub open spec fn move_of(action: Action) -> Option<MoveIntentionEvent> {
    match action {
        Action::Move(motion) => motion_delta(motion),
        _ => None,
    }
}

/// Carries out a parsed command: edits the buffer, or returns the move
/// request for the player.
pub fn dispatch_command(vim_state: &mut VimState, cmd: ParsedCommand) -> (r: Option<MoveIntentionEvent>)
    ensures
        final(vim_state).buffer@ == buffer_after(old(vim_state).buffer@, cmd.action),
        final(vim_state).parser.state == old(vim_state).parser.state,
        r == move_of(cmd.action),
{
    match cmd.action {
        Action::Insert(text) => {
            handle_insert(vim_state, text);
            None
        },
        Action::Backspace => {
            handle_backspace(vim_state);
            None
        },
        Action::Move(motion) => handle_motion(motion),
        _ => None,
    }
}

/// The effect of one key on the editor: the parser's next state, the
/// buffer, and the move request, if the key completed a command.
pub open spec fn key_effect(st: EditorState, buffer: Seq<char>, key: Key) -> (EditorState, Seq<char>, Option<MoveIntentionEvent>) {
    let (next, r) = feed_step(st, key);
    match r {
        ParseResult::Success(cmd) => (next, buffer_after(buffer, cmd.action), move_of(cmd.action)),
        _ => (next, buffer, None),
    }
}

/// Whether every key of `keys`, fed in order from `st`, can be handled.
pub open spec fn keys_supported(st: EditorState, buffer: Seq<char>, keys: Seq<Key>) -> bool
    decreases keys.len(),
{
    if keys.len() == 0 {
        true
    } else {
        keys_supported(st, buffer, keys.drop_last())
            && !feed_unsupported(keys_effect(st, buffer, keys.drop_last()).0, keys.last())
    }
}

/// The parser state, buffer and move requests after feeding `keys` in order.
pub open spec fn keys_effect(st: EditorState, buffer: Seq<char>, keys: Seq<Key>) -> (EditorState, Seq<char>, Seq<MoveIntentionEvent>)
    decreases keys.len(),
{
    if keys.len() == 0 {
        (st, buffer, Seq::empty())
    } else {
        let (st1, buf1, moves1) = keys_effect(st, buffer, keys.drop_last());
        let (st2, buf2, mv) = key_effect(st1, buf1, keys.last());
        (st2, buf2, match mv {
            Some(m) => moves1.push(m),
            None => moves1,
        })
    }
}

/// Feeds one key and carries out the command it completes.
pub fn process_vim_key(vim_state: &mut VimState, key: Key) -> (r: Option<MoveIntentionEvent>)
    requires
        !feed_unsupported(old(vim_state).parser.state, key),
    ensures
        (final(vim_state).parser.state, final(vim_state).buffer@, r)
            == key_effect(old(vim_state).parser.state, old(vim_state).buffer@, key),
{
    let result = vim_state.parser.feed(key);
    match result {
        ParseResult::Incomplete => None,
        ParseResult::Success(cmd) => dispatch_command(vim_state, cmd),
        ParseResult::Invalid(_) => None,
    }
}

/// Feeds the keys of one frame in order and returns the move requests of
/// the commands they complete.
pub fn process_vim_input(vim_state: &mut VimState, keys: &[Key]) -> (r: Vec<MoveIntentionEvent>)
    requires
        keys_supported(old(vim_state).parser.state, old(vim_state).buffer@, keys@),
    ensures
        (final(vim_state).parser.state, final(vim_state).buffer@, r@)
            == keys_effect(old(vim_state).parser.state, old(vim_state).buffer@, keys@),
{
    let ghost st0 = vim_state.parser.state;
    let ghost buf0 = vim_state.buffer@;
    let mut moves: Vec<MoveIntentionEvent> = Vec::new();
    let mut i: usize = 0;
    proof {
        assert(keys@.take(0) == Seq::<Key>::empty());
    }
    while i < keys.len()
        invariant
            i <= keys@.len(),
            keys_supported(st0, buf0, keys@),
            (vim_state.parser.state, vim_state.buffer@, moves@) == keys_effect(st0, buf0, keys@.take(i as int)),
        decreases keys@.len() - i,
    {
        proof {
            assert(keys@.take(i + 1).drop_last() == keys@.take(i as int));
            lemma_supported_prefix(st0, buf0, keys@, i as int + 1);
        }
        let key = keys[i];
        let mv = process_vim_key(vim_state, key);
        if let Some(m) = mv {
            moves.push(m);
        }
        i = i + 1;
    }
    proof {
        assert(keys@.take(keys@.len() as int) == keys@);
    }
    moves
}

/// Every prefix of supported keys is supported.
proof fn lemma_supported_prefix(st: EditorState, buffer: Seq<char>, keys: Seq<Key>, n: int)
    requires
        0 <= n <= keys.len(),
        keys_supported(st, buffer, keys),
    ensures
        keys_supported(st, buffer, keys.take(n)),
    decreases keys.len() - n,
{
    if n < keys.len() {
        assert(keys.drop_last().take(n) == keys.take(n));
        lemma_supported_prefix(st, buffer, keys.drop_last(), n);
    } else {
        assert(keys.take(n) == keys);
    }
}

} // verus!

verus! {

/// Only a `Move` command moves the player: every other command, operator
/// commands on any target included, sends no move request; and an operator
/// command leaves the buffer as it was.
pub proof fn law_only_moves_move_the_player(buffer: Seq<char>, action: Action)
    ensures
        move_of(action) is Some ==> action is Move,
        action is Operate ==> move_of(action) is None && buffer_after(buffer, action) == buffer,
{
}

/// The keys of a frame move the player only by the four one-cell steps of
/// `h`, `j`, `k`, `l` (or the arrows): every move request is one cell in one
/// direction.
pub proof fn law_move_requests_are_single_steps(action: Action)
    ensures
        move_of(action) matches Some(m) ==> (
            (m.d_col == 0 && (m.d_row == 1 || m.d_row == -1))
            || (m.d_row == 0 && (m.d_col == 1 || m.d_col == -1))
        ),
{
}

} // verus!
