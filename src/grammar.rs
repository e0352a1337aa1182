//! The mode-string grammar as mathematics: the value of an octal numeral, and
//! the symbolic state machine, one character at a time.
use crate::types::{empty_clause, fresh_action, has_content, ChmodAction, ChmodActionOp, ClauseView, ModeView};
use vstd::prelude::*;

verus! {

/// The value of an octal digit character.
pub open spec fn octal_digit(c: char) -> Option<u32> {
    match c {
        '0' => Some(0u32),
        '1' => Some(1u32),
        '2' => Some(2u32),
        '3' => Some(3u32),
        '4' => Some(4u32),
        '5' => Some(5u32),
        '6' => Some(6u32),
        '7' => Some(7u32),
        _ => None,
    }
}

/// A non-empty string made of octal digits only.
pub open spec fn is_octal(s: Seq<char>) -> bool {
    s.len() > 0 && forall|i: int| 0 <= i < s.len() ==> (#[trigger] octal_digit(s[i])) is Some
}

/// The value of a string of octal digits, read most significant digit first.
pub open spec fn octal_value(s: Seq<char>) -> nat
    decreases s.len(),
{
    if s.len() == 0 {
        0
    } else {
        let d: nat = match octal_digit(s.last()) {
            Some(d) => d as nat,
            None => 0,
        };
        8 * octal_value(s.drop_last()) + d
    }
}

/// A string read as an absolute mode: octal digits whose value fits in a `u32`.
pub open spec fn is_absolute(s: Seq<char>) -> bool {
    is_octal(s) && octal_value(s) <= u32::MAX
}

/// The phases of the symbolic grammar.
#[derive(PartialEq, Eq, Structural, Debug, Clone, Copy)]
pub enum ParseState {
    /// Collecting the subject letters of a clause.
    Wholist,
    /// Expecting an operator that starts a new action.
    Actionlist,
    /// Just after an operator: telling a copy source from a permission list.
    ListOrCopy,
    /// Collecting the subject letters whose bits are copied.
    PermCopy,
    /// Collecting literal permission letters.
    PermList,
    /// Expecting the comma between two clauses.
    NextClause,
}

/// Everything the symbolic parser holds between two characters.
#[verifier::ext_equal]
pub struct Machine {
    pub state: ParseState,
    pub clauses: Seq<ClauseView>,
    pub clause: ClauseView,
    pub action: ChmodAction,
}

pub open spec fn initial_machine() -> Machine {
    Machine {
        state: ParseState::Wholist,
        clauses: Seq::empty(),
        clause: empty_clause(),
        action: fresh_action(),
    }
}

pub open spec fn is_copy_source(c: char) -> bool {
    c == 'u' || c == 'g' || c == 'o'
}

pub open spec fn is_subject(c: char) -> bool {
    is_copy_source(c) || c == 'a'
}

pub open spec fn is_permission(c: char) -> bool {
    c == 'r' || c == 'w' || c == 'x' || c == 'X' || c == 's' || c == 't'
}

pub open spec fn operator_of(c: char) -> Option<ChmodActionOp> {
    match c {
        '+' => Some(ChmodActionOp::Add),
        '-' => Some(ChmodActionOp::Remove),
        '=' => Some(ChmodActionOp::Assign),
        _ => None,
    }
}

/// The clause after a subject letter; `a` names all three classes.
pub open spec fn add_subject(cl: ClauseView, c: char) -> ClauseView {
    ClauseView {
        user: cl.user || c == 'u' || c == 'a',
        group: cl.group || c == 'g' || c == 'a',
        others: cl.others || c == 'o' || c == 'a',
        actions: cl.actions,
    }
}

/// The action after a copy-source letter.
pub open spec fn add_copy(a: ChmodAction, c: char) -> ChmodAction {
    ChmodAction {
        copy_user: a.copy_user || c == 'u',
        copy_group: a.copy_group || c == 'g',
        copy_others: a.copy_others || c == 'o',
        ..a
    }
}

/// The action after a permission letter.
pub open spec fn add_permission(a: ChmodAction, c: char) -> ChmodAction {
    ChmodAction {
        read: a.read || c == 'r',
        write: a.write || c == 'w',
        execute: a.execute || c == 'x',
        execute_dir: a.execute_dir || c == 'X',
        setuid: a.setuid || c == 's',
        sticky: a.sticky || c == 't',
        ..a
    }
}

/// The clauses once the current clause is committed, if it has content.
pub open spec fn commit_clause(m: Machine) -> Seq<ClauseView> {
    if has_content(m.clause) {
        m.clauses.push(m.clause)
    } else {
        m.clauses
    }
}

/// The machine once the current action is appended to the current clause
/// and a fresh action begun, back in the action list.
pub open spec fn commit_action(m: Machine) -> Machine {
    Machine {
        state: ParseState::Actionlist,
        clause: ClauseView { actions: m.clause.actions.push(m.action), ..m.clause },
        action: fresh_action(),
        ..m
    }
}

/// `c` read while expecting the clause delimiter; `Err(c)` is a syntax error.
pub open spec fn on_next_clause(m: Machine, c: char) -> Result<Machine, char> {
    if c == ',' {
        Ok(Machine { state: ParseState::Wholist, ..m })
    } else {
        Err(c)
    }
}

/// `c` read while expecting an operator. Any other character ends the clause.
pub open spec fn on_actionlist(m: Machine, c: char) -> Result<Machine, char> {
    match operator_of(c) {
        Some(op) => Ok(
            Machine { state: ParseState::ListOrCopy, action: ChmodAction { op, ..m.action }, ..m },
        ),
        None => on_next_clause(
            Machine {
                state: ParseState::NextClause,
                clauses: commit_clause(m),
                clause: empty_clause(),
                ..m
            },
            c,
        ),
    }
}

/// `c` read while collecting copy sources. Any other letter ends the action.
pub open spec fn on_perm_copy(m: Machine, c: char) -> Result<Machine, char> {
    if is_copy_source(c) {
        Ok(Machine { action: add_copy(m.action, c), ..m })
    } else {
        on_actionlist(commit_action(m), c)
    }
}

/// `c` read while collecting permissions. Any other letter ends the action.
pub open spec fn on_perm_list(m: Machine, c: char) -> Result<Machine, char> {
    if is_permission(c) {
        Ok(Machine { action: add_permission(m.action, c), ..m })
    } else {
        on_actionlist(commit_action(m), c)
    }
}

/// The machine after one character, or the character that is a syntax error.
pub open spec fn feed(m: Machine, c: char) -> Result<Machine, char> {
    match m.state {
        ParseState::Wholist => if is_subject(c) {
            Ok(Machine { clause: add_subject(m.clause, c), ..m })
        } else {
            on_actionlist(Machine { state: ParseState::Actionlist, ..m }, c)
        },
        ParseState::Actionlist => on_actionlist(m, c),
        ParseState::ListOrCopy => if is_copy_source(c) {
            on_perm_copy(Machine { state: ParseState::PermCopy, ..m }, c)
        } else {
            on_perm_list(Machine { state: ParseState::PermList, ..m }, c)
        },
        ParseState::PermCopy => on_perm_copy(m, c),
        ParseState::PermList => on_perm_list(m, c),
        ParseState::NextClause => on_next_clause(m, c),
    }
}

/// The machine after reading all of `s` from the start, or the first
/// character that is a syntax error.
pub open spec fn run(s: Seq<char>) -> Result<Machine, char>
    decreases s.len(),
{
    if s.len() == 0 {
        Ok(initial_machine())
    } else {
        match run(s.drop_last()) {
            Ok(m) => feed(m, s.last()),
            Err(c) => Err(c),
        }
    }
}

/// An action is open once its operator has been read.
pub open spec fn action_open(st: ParseState) -> bool {
    st == ParseState::ListOrCopy || st == ParseState::PermCopy || st == ParseState::PermList
}

/// The clauses at the end of the input: an open action is appended to the
/// current clause, and the current clause is committed if it has content.
pub open spec fn finish(m: Machine) -> Seq<ClauseView> {
    let cl = if action_open(m.state) {
        ClauseView { actions: m.clause.actions.push(m.action), ..m.clause }
    } else {
        m.clause
    };
    if has_content(cl) {
        m.clauses.push(cl)
    } else {
        m.clauses
    }
}

/// What parsing `s` gives: an absolute mode for an octal numeral that fits,
/// else the symbolic specification, or the character that is a syntax error.
pub open spec fn parse_mode(s: Seq<char>) -> Result<ModeView, char> {
    if is_absolute(s) {
        Ok(ModeView::Absolute(octal_value(s) as u32))
    } else {
        match run(s) {
            Ok(m) => Ok(ModeView::Symbolic(finish(m))),
            Err(c) => Err(c),
        }
    }
}

/// The message that reports `c` as a syntax error.
pub open spec fn syntax_error_message(c: char) -> Seq<char> {
    "unexpected character: "@ + seq![c]
}

} // verus!
