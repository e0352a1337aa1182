use modestr::{parse, ChmodAction, ChmodActionOp, ChmodClause, ChmodMode, ChmodSymbolic};

fn symbolic(input: &str) -> ChmodSymbolic {
    match parse(input).unwrap() {
        ChmodMode::Symbolic(s) => s,
        ChmodMode::Absolute(m) => panic!("unexpected absolute mode {}", m),
    }
}

fn absolute(input: &str) -> u32 {
    match parse(input).unwrap() {
        ChmodMode::Absolute(m) => m,
        ChmodMode::Symbolic(_) => panic!("unexpected symbolic mode"),
    }
}

fn flags(a: &ChmodAction) -> [bool; 9] {
    [
        a.copy_user,
        a.copy_group,
        a.copy_others,
        a.read,
        a.write,
        a.execute,
        a.execute_dir,
        a.setuid,
        a.sticky,
    ]
}

fn subjects(c: &ChmodClause) -> [bool; 3] {
    [c.user, c.group, c.others]
}

#[test]
fn test_parse_mode() {
    let mode = parse("u=rwX,go=rX").unwrap();
    match mode {
        ChmodMode::Symbolic(s) => {
            assert_eq!(s.clauses.len(), 2);
            let clause = &s.clauses[0];
            assert_eq!(clause.user, true);
            assert_eq!(clause.group, false);
            assert_eq!(clause.others, false);
            assert_eq!(clause.actions.len(), 1);
            let action = &clause.actions[0];
            assert_eq!(action.op, ChmodActionOp::Assign);
            assert_eq!(action.copy_user, false);
            assert_eq!(action.copy_group, false);
            assert_eq!(action.copy_others, false);
            assert_eq!(action.read, true);
            assert_eq!(action.write, true);
            assert_eq!(action.execute, false);
            assert_eq!(action.execute_dir, true);
            assert_eq!(action.setuid, false);
            assert_eq!(action.sticky, false);
            let clause = &s.clauses[1];
            assert_eq!(clause.user, false);
            assert_eq!(clause.group, true);
            assert_eq!(clause.others, true);
            assert_eq!(clause.actions.len(), 1);
            let action = &clause.actions[0];
            assert_eq!(action.op, ChmodActionOp::Assign);
            assert_eq!(action.copy_user, false);
            assert_eq!(action.copy_group, false);
            assert_eq!(action.copy_others, false);
            assert_eq!(action.read, true);
            assert_eq!(action.write, false);
            assert_eq!(action.execute, false);
            assert_eq!(action.execute_dir, true);
            assert_eq!(action.setuid, false);
            assert_eq!(action.sticky, false);
        }
        _ => panic!("unexpected mode"),
    }
}

#[test]
fn octal_numerals_are_absolute() {
    assert_eq!(absolute("755"), 0o755);
    assert_eq!(absolute("0"), 0);
    assert_eq!(absolute("0644"), 0o644);
    assert_eq!(absolute("4755"), 0o4755);
    assert_eq!(absolute("37777777777"), u32::MAX);
}

#[test]
fn octal_numeral_too_large_is_read_symbolically() {
    assert_eq!(parse("40000000000").unwrap_err(), "unexpected character: 4");
}

#[test]
fn non_octal_digit_is_read_symbolically() {
    assert_eq!(parse("758").unwrap_err(), "unexpected character: 7");
    assert_eq!(parse("+755").unwrap_err(), "unexpected character: 7");
}

#[test]
fn all_subjects_add_read() {
    let s = symbolic("a+r");
    assert_eq!(s.clauses.len(), 1);
    assert_eq!(subjects(&s.clauses[0]), [true, true, true]);
    assert_eq!(s.clauses[0].actions.len(), 1);
    let a = &s.clauses[0].actions[0];
    assert_eq!(a.op, ChmodActionOp::Add);
    assert_eq!(flags(a), [false, false, false, true, false, false, false, false, false]);
}

#[test]
fn copy_from_user() {
    let s = symbolic("u+x,g=u");
    assert_eq!(s.clauses.len(), 2);
    assert_eq!(subjects(&s.clauses[0]), [true, false, false]);
    assert_eq!(s.clauses[0].actions[0].op, ChmodActionOp::Add);
    assert_eq!(
        flags(&s.clauses[0].actions[0]),
        [false, false, false, false, false, true, false, false, false]
    );
    assert_eq!(subjects(&s.clauses[1]), [false, true, false]);
    assert_eq!(s.clauses[1].actions.len(), 1);
    let a = &s.clauses[1].actions[0];
    assert_eq!(a.op, ChmodActionOp::Assign);
    assert_eq!(flags(a), [true, false, false, false, false, false, false, false, false]);
}

#[test]
fn copy_from_group_and_others() {
    let s = symbolic("u=go");
    assert_eq!(s.clauses.len(), 1);
    assert_eq!(
        flags(&s.clauses[0].actions[0]),
        [false, true, true, false, false, false, false, false, false]
    );
}

#[test]
fn user_and_group_set_read_write() {
    let s = symbolic("ug=rw");
    assert_eq!(s.clauses.len(), 1);
    assert_eq!(subjects(&s.clauses[0]), [true, true, false]);
    assert_eq!(s.clauses[0].actions.len(), 1);
    let a = &s.clauses[0].actions[0];
    assert_eq!(a.op, ChmodActionOp::Assign);
    assert_eq!(flags(a), [false, false, false, true, true, false, false, false, false]);
}

#[test]
fn stray_character_instead_of_comma() {
    let e = parse("u=rw#g=r").unwrap_err();
    assert_eq!(e, "unexpected character: #");
    assert!(e.contains('#'));
}

#[test]
fn chained_operators_in_one_clause() {
    let s = symbolic("u+r-w");
    assert_eq!(s.clauses.len(), 1);
    let actions = &s.clauses[0].actions;
    assert_eq!(actions.len(), 2);
    assert_eq!(actions[0].op, ChmodActionOp::Add);
    assert_eq!(flags(&actions[0]), [false, false, false, true, false, false, false, false, false]);
    assert_eq!(actions[1].op, ChmodActionOp::Remove);
    assert_eq!(flags(&actions[1]), [false, false, false, false, true, false, false, false, false]);
}

#[test]
fn empty_input_has_no_clauses() {
    assert_eq!(symbolic("").clauses.len(), 0);
}

#[test]
fn all_permission_letters() {
    let s = symbolic("o-rwxXst");
    assert_eq!(subjects(&s.clauses[0]), [false, false, true]);
    let a = &s.clauses[0].actions[0];
    assert_eq!(a.op, ChmodActionOp::Remove);
    assert_eq!(flags(a), [false, false, false, true, true, true, true, true, true]);
}

#[test]
fn clause_without_subjects() {
    let s = symbolic("+x");
    assert_eq!(s.clauses.len(), 1);
    assert_eq!(subjects(&s.clauses[0]), [false, false, false]);
    assert_eq!(s.clauses[0].actions.len(), 1);
}

#[test]
fn operator_without_permissions() {
    let s = symbolic("u=");
    assert_eq!(s.clauses.len(), 1);
    let a = &s.clauses[0].actions[0];
    assert_eq!(a.op, ChmodActionOp::Assign);
    assert_eq!(flags(a), [false; 9]);
}

#[test]
fn subjects_only_clause() {
    let s = symbolic("u,g");
    assert_eq!(s.clauses.len(), 2);
    assert_eq!(subjects(&s.clauses[0]), [true, false, false]);
    assert_eq!(s.clauses[0].actions.len(), 0);
    assert_eq!(subjects(&s.clauses[1]), [false, true, false]);
}

#[test]
fn clauses_count_segments() {
    assert_eq!(symbolic("u+r,g-w,o=x").clauses.len(), 3);
    assert_eq!(symbolic("u=r,").clauses.len(), 1);
    assert_eq!(symbolic(",").clauses.len(), 0);
    assert_eq!(symbolic("u=r,,g=w").clauses.len(), 2);
}

#[test]
fn letter_where_operator_expected() {
    assert_eq!(parse("ux").unwrap_err(), "unexpected character: x");
    assert_eq!(parse("u=rq").unwrap_err(), "unexpected character: q");
}

#[test]
fn constructors_start_empty() {
    let a = ChmodAction::new();
    assert_eq!(a.op, ChmodActionOp::Assign);
    assert_eq!(flags(&a), [false; 9]);
    let c = ChmodClause::new();
    assert_eq!(subjects(&c), [false, false, false]);
    assert!(c.actions.is_empty());
    assert!(!c.has_content());
    assert!(ChmodSymbolic::new().clauses.is_empty());
}
