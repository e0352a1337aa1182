//! The parser: an octal numeral first, then the symbolic state machine.
use crate::grammar::{
    feed, finish, is_absolute, octal_digit, octal_value, parse_mode, run, syntax_error_message,
    Machine, ParseState,
};
use crate::types::{ChmodAction, ChmodActionOp, ChmodClause, ChmodMode, ChmodSymbolic};
use vstd::prelude::*;

verus! {

/// Relies on `String::push`: the character is appended at the end.
#[verifier::external_body]
fn push_char(s: &mut String, c: char)
    ensures
        final(s)@ == old(s)@.push(c),
{
    s.push(c)
}

/// Once the machine has failed on a prefix, it fails the same way on the whole input.
proof fn lemma_error_persists(s: Seq<char>, k: int)
    requires
        0 <= k <= s.len(),
        run(s.take(k)) is Err,
    ensures
        run(s) == run(s.take(k)),
    decreases s.len(),
{
    if k == s.len() {
        assert(s.take(k) =~= s);
    } else {
        assert(s.drop_last().take(k) =~= s.take(k));
        lemma_error_persists(s.drop_last(), k);
    }
}

/// Reading one more character is one step of the machine.
proof fn lemma_run_step(s: Seq<char>, i: int)
    requires
        0 <= i < s.len(),
    ensures
        run(s.take(i + 1)) == match run(s.take(i)) {
            Ok(m) => feed(m, s[i]),
            Err(c) => Err(c),
        },
{
    assert(s.take(i + 1).drop_last() =~= s.take(i));
}

/// How far a state is from consuming the character at hand; every
/// transition that keeps the character lowers it.
spec fn rank(st: ParseState) -> int {
    match st {
        ParseState::NextClause => 0,
        ParseState::Actionlist => 1,
        ParseState::ListOrCopy => 3,
        _ => 2,
    }
}

/// The value of `s` as an octal numeral, where it is one that fits in a `u32`.
fn octal_mode(s: &str) -> (r: Option<u32>)
    ensures
        r == (if is_absolute(s@) {
            Some(octal_value(s@) as u32)
        } else {
            None::<u32>
        }),
{
    let mut acc: u32 = 0;
    let mut fits: bool = true;
    let mut seen: bool = false;
    for c in it: s.chars()
        invariant
            it.seq() == s@,
            seen == (it.index() > 0),
            fits ==> octal_value(s@.take(it.index() as int)) == acc,
            fits ==> forall|j: int| 0 <= j < it.index() ==> (#[trigger] octal_digit(s@[j])) is Some,
            !fits ==> (octal_value(s@.take(it.index() as int)) > u32::MAX || exists|j: int|
                0 <= j < it.index() && (#[trigger] octal_digit(s@[j])) is None),
    {
        let ghost i = it.index() as int;
        let ghost p = s@.take(i + 1);
        assert(c == s@[i]);
        assert(p.drop_last() =~= s@.take(i));
        let d: Option<u32> = match c {
            '0' => Some(0u32),
            '1' => Some(1u32),
            '2' => Some(2u32),
            '3' => Some(3u32),
            '4' => Some(4u32),
            '5' => Some(5u32),
            '6' => Some(6u32),
            '7' => Some(7u32),
            _ => None,
        };
        assert(d == octal_digit(c));
        match d {
            Some(d) => {
                if fits {
                    let v: u64 = acc as u64 * 8 + d as u64;
                    if v <= u32::MAX as u64 {
                        acc = v as u32;
                    } else {
                        fits = false;
                    }
                }
            },
            None => {
                fits = false;
            },
        }
        seen = true;
    }
    assert(s@.take(s@.len() as int) =~= s@);
    if fits && seen {
        Some(acc)
    } else {
        None
    }
}

/// Parses a mode string: an octal numeral that fits in a `u32` is an
/// absolute mode; anything else is read as a symbolic specification.
#[verifier::rlimit(40)]
pub fn parse(mode: &str) -> (r: Result<ChmodMode, String>)
    ensures
        match parse_mode(mode@) {
            Ok(v) => r is Ok && r->Ok_0@ == v,
            Err(c) => r is Err && r->Err_0@ == syntax_error_message(c),
        },
{
    match octal_mode(mode) {
        Some(m) => {
            return Ok(ChmodMode::Absolute(m));
        },
        None => {},
    }
    let mut state = ParseState::Wholist;
    let mut symbolic = ChmodSymbolic::new();
    let mut clause = ChmodClause::new();
    let mut action = ChmodAction::new();
    assert(mode@.take(0) =~= Seq::<char>::empty());

    for c in it: mode.chars()
        invariant
            it.seq() == mode@,
            !is_absolute(mode@),
            run(mode@.take(it.index() as int)) == Ok::<Machine, char>(
                Machine { state, clauses: symbolic@, clause: clause@, action },
            ),
    {
        let ghost i = it.index() as int;
        let ghost target = feed(Machine { state, clauses: symbolic@, clause: clause@, action }, c);
        proof {
            lemma_run_step(mode@, i);
        }
        let mut done: bool = false;
        while !done
            invariant
                0 <= i < mode@.len(),
                c == mode@[i],
                !is_absolute(mode@),
                run(mode@.take(i + 1)) == target,
                !done ==> feed(Machine { state, clauses: symbolic@, clause: clause@, action }, c)
                    == target,
                done ==> target == Ok::<Machine, char>(
                    Machine { state, clauses: symbolic@, clause: clause@, action },
                ),
            decreases (if done { 0 } else { rank(state) + 1 }),
        {
            let ghost before = symbolic@;
            match state {
                ParseState::Wholist => {
                    done = true;
                    if c == 'u' {
                        clause.user = true;
                    } else if c == 'g' {
                        clause.group = true;
                    } else if c == 'o' {
                        clause.others = true;
                    } else if c == 'a' {
                        clause.user = true;
                        clause.group = true;
                        clause.others = true;
                    } else {
                        state = ParseState::Actionlist;
                        done = false;
                    }
                },
                ParseState::Actionlist => {
                    done = true;
                    if c == '+' {
                        action.op = ChmodActionOp::Add;
                        state = ParseState::ListOrCopy;
                    } else if c == '-' {
                        action.op = ChmodActionOp::Remove;
                        state = ParseState::ListOrCopy;
                    } else if c == '=' {
                        action.op = ChmodActionOp::Assign;
                        state = ParseState::ListOrCopy;
                    } else {
                        done = false;
                        if clause.has_content() {
                            symbolic.clauses.push(clause);
                            assert(symbolic@ =~= before.push(clause@));
                        }
                        clause = ChmodClause::new();
                        state = ParseState::NextClause;
                    }
                },
                ParseState::ListOrCopy => {
                    if c == 'u' || c == 'g' || c == 'o' {
                        state = ParseState::PermCopy;
                    } else {
                        state = ParseState::PermList;
                    }
                },
                ParseState::PermCopy => {
                    done = true;
                    if c == 'u' {
                        action.copy_user = true;
                    } else if c == 'g' {
                        action.copy_group = true;
                    } else if c == 'o' {
                        action.copy_others = true;
                    } else {
                        done = false;
                        clause.actions.push(action);
                        action = ChmodAction::new();
                        state = ParseState::Actionlist;
                    }
                },
                ParseState::PermList => {
                    done = true;
                    if c == 'r' {
                        action.read = true;
                    } else if c == 'w' {
                        action.write = true;
                    } else if c == 'x' {
                        action.execute = true;
                    } else if c == 'X' {
                        action.execute_dir = true;
                    } else if c == 's' {
                        action.setuid = true;
                    } else if c == 't' {
                        action.sticky = true;
                    } else {
                        done = false;
                        clause.actions.push(action);
                        action = ChmodAction::new();
                        state = ParseState::Actionlist;
                    }
                },
                ParseState::NextClause => {
                    if c != ',' {
                        proof {
                            lemma_error_persists(mode@, i + 1);
                        }
                        let mut msg = String::from_str("unexpected character: ");
                        push_char(&mut msg, c);
                        assert(msg@ =~= syntax_error_message(c));
                        return Err(msg);
                    }
                    done = true;
                    state = ParseState::Wholist;
                },
            }
        }
    }
    assert(mode@.take(mode@.len() as int) =~= mode@);
    let ghost m = Machine { state, clauses: symbolic@, clause: clause@, action };
    let ghost before = symbolic@;
    match state {
        ParseState::ListOrCopy | ParseState::PermCopy | ParseState::PermList => {
            clause.actions.push(action);
        },
        _ => {},
    }
    if clause.has_content() {
        symbolic.clauses.push(clause);
        assert(symbolic@ =~= before.push(clause@));
    }
    assert(symbolic@ =~= finish(m));
    Ok(ChmodMode::Symbolic(symbolic))
}

} // verus!
