//! General facts about what `parse` returns, proved from the grammar.
use crate::grammar::{action_open, is_octal, octal_value, parse_mode, run, ParseState};
use crate::types::{fresh_action, has_content, ChmodAction, ClauseView, ModeView};
use vstd::prelude::*;

verus! {

/// An octal numeral whose value fits in a `u32` is always an absolute mode
/// with that value: the symbolic grammar is never consulted for it.
pub proof fn lemma_octal_numeral_is_absolute(s: Seq<char>)
    requires
        is_octal(s),
        octal_value(s) <= u32::MAX,
    ensures
        parse_mode(s) == Ok::<ModeView, char>(ModeView::Absolute(octal_value(s) as u32)),
{
}

/// The number of commas in `s`.
pub open spec fn comma_count(s: Seq<char>) -> nat
    decreases s.len(),
{
    if s.len() == 0 {
        0
    } else {
        comma_count(s.drop_last()) + if s.last() == ',' {
            1nat
        } else {
            0nat
        }
    }
}

/// Whether the last comma-separated segment of `s` has begun, that is,
/// whether `s` ends in a character other than a comma.
pub open spec fn segment_open(s: Seq<char>) -> bool {
    s.len() > 0 && s.last() != ','
}

/// The number of non-empty comma-separated segments of `s`: the positions
/// that hold a character other than a comma and start a segment.
pub open spec fn nonempty_segment_count(s: Seq<char>) -> nat
    decreases s.len(),
{
    if s.len() == 0 {
        0
    } else {
        nonempty_segment_count(s.drop_last()) + if s.last() != ',' && !segment_open(
            s.drop_last(),
        ) {
            1nat
        } else {
            0nat
        }
    }
}

/// Every comma-separated segment of `s` holds at least one character.
pub open spec fn no_empty_segment(s: Seq<char>) -> bool {
    &&& segment_open(s)
    &&& forall|i: int| 0 <= i < s.len() && #[trigger] s[i] == ',' ==> 0 < i && s[i - 1] != ','
}

/// Between characters the machine is collecting subjects or inside an
/// action, and it has committed one clause for each non-empty segment that
/// has ended.
proof fn lemma_run_shape(p: Seq<char>)
    requires
        run(p) is Ok,
    ensures
        ({
            let m = run(p)->Ok_0;
            &&& m.state == ParseState::Wholist || action_open(m.state)
            &&& m.state == ParseState::Wholist ==> m.clause.actions.len() == 0 && (has_content(
                m.clause,
            ) <==> segment_open(p))
            &&& action_open(m.state) ==> segment_open(p)
            &&& m.clauses.len() + (if segment_open(p) {
                1nat
            } else {
                0nat
            }) == nonempty_segment_count(p)
        }),
    decreases p.len(),
{
    if p.len() > 0 {
        lemma_run_shape(p.drop_last());
    }
}

/// With no empty segment, each non-empty segment but the last ends in a comma.
proof fn lemma_segments_and_commas(s: Seq<char>)
    requires
        forall|i: int| 0 <= i < s.len() && #[trigger] s[i] == ',' ==> 0 < i && s[i - 1] != ',',
    ensures
        nonempty_segment_count(s) == comma_count(s) + if segment_open(s) {
            1nat
        } else {
            0nat
        },
    decreases s.len(),
{
    if s.len() > 0 {
        let q = s.drop_last();
        assert forall|i: int| 0 <= i < q.len() && #[trigger] q[i] == ',' implies 0 < i && q[i
            - 1] != ',' by {
            assert(s[i] == q[i]);
        }
        lemma_segments_and_commas(q);
        if s.last() == ',' {
            assert(s[s.len() - 1] == ',');
        }
    }
}

/// A symbolic parse commits one clause for each non-empty comma-separated
/// segment of its input; so where every segment holds a character, there
/// are as many clauses as segments.
pub proof fn lemma_clauses_match_segments(s: Seq<char>)
    requires
        parse_mode(s) matches Ok(ModeView::Symbolic(_)),
    ensures
        parse_mode(s)->Ok_0->Symbolic_0.len() == nonempty_segment_count(s),
        no_empty_segment(s) ==> parse_mode(s)->Ok_0->Symbolic_0.len() == comma_count(s) + 1,
{
    lemma_run_shape(s);
    if no_empty_segment(s) {
        lemma_segments_and_commas(s);
    }
}

/// Whether the action copies bits from some subject class.
pub open spec fn copies_bits(a: ChmodAction) -> bool {
    a.copy_user || a.copy_group || a.copy_others
}

/// Whether the action names some literal permission.
pub open spec fn names_permissions(a: ChmodAction) -> bool {
    a.read || a.write || a.execute || a.execute_dir || a.setuid || a.sticky
}

/// A committed clause names a subject or holds an action, and none of its
/// actions both copies bits and names literal permissions.
pub open spec fn clause_well_formed(c: ClauseView) -> bool {
    &&& has_content(c)
    &&& forall|j: int|
        0 <= j < c.actions.len() ==> !(copies_bits(#[trigger] c.actions[j]) && names_permissions(
            c.actions[j],
        ))
}

/// The action being built holds flags of the kind its state collects only.
proof fn lemma_run_well_formed(p: Seq<char>)
    requires
        run(p) is Ok,
    ensures
        ({
            let m = run(p)->Ok_0;
            &&& forall|i: int| 0 <= i < m.clauses.len() ==> clause_well_formed(#[trigger] m.clauses[i])
            &&& forall|j: int|
                0 <= j < m.clause.actions.len() ==> !(copies_bits(#[trigger] m.clause.actions[j])
                    && names_permissions(m.clause.actions[j]))
            &&& m.state == ParseState::Wholist ==> m.action == fresh_action()
            &&& m.state == ParseState::ListOrCopy ==> !copies_bits(m.action) && !names_permissions(
                m.action,
            )
            &&& m.state == ParseState::PermCopy ==> !names_permissions(m.action)
            &&& m.state == ParseState::PermList ==> !copies_bits(m.action)
        }),
    decreases p.len(),
{
    if p.len() > 0 {
        lemma_run_well_formed(p.drop_last());
        lemma_run_shape(p.drop_last());
        let m = run(p.drop_last())->Ok_0;
        let n = run(p)->Ok_0;
        assert forall|j: int| 0 <= j < n.clause.actions.len() implies !(copies_bits(
            #[trigger] n.clause.actions[j],
        ) && names_permissions(n.clause.actions[j])) by {
            if j < m.clause.actions.len() {
                assert(m.clause.actions.push(m.action)[j] == m.clause.actions[j]);
            }
        }
        assert forall|i: int| 0 <= i < n.clauses.len() implies clause_well_formed(
            #[trigger] n.clauses[i],
        ) by {
            if i < m.clauses.len() {
                assert(m.clauses.push(m.clause)[i] == m.clauses[i]);
                assert(m.clauses.push(ClauseView { actions: m.clause.actions.push(m.action), ..m.clause })[i] == m.clauses[i]);
            } else {
                let cl = n.clauses[i];
                assert forall|j: int| 0 <= j < cl.actions.len() implies !(copies_bits(
                    #[trigger] cl.actions[j],
                ) && names_permissions(cl.actions[j])) by {
                    if j < m.clause.actions.len() {
                        assert(m.clause.actions.push(m.action)[j] == m.clause.actions[j]);
                    }
                }
            }
        }
    }
}

/// Every clause of a symbolic parse names a subject or holds an action, and
/// no action of it both copies bits from a subject class and names literal
/// permissions: the two come from disjoint phases of the grammar.
pub proof fn lemma_symbolic_clauses_well_formed(s: Seq<char>)
    requires
        parse_mode(s) matches Ok(ModeView::Symbolic(_)),
    ensures
        forall|i: int|
            0 <= i < parse_mode(s)->Ok_0->Symbolic_0.len() ==> clause_well_formed(
                #[trigger] parse_mode(s)->Ok_0->Symbolic_0[i],
            ),
{
    lemma_run_well_formed(s);
    lemma_run_shape(s);
    let m = run(s)->Ok_0;
    let cs = parse_mode(s)->Ok_0->Symbolic_0;
    assert forall|i: int| 0 <= i < cs.len() implies clause_well_formed(#[trigger] cs[i]) by {
        if i < m.clauses.len() {
            assert(m.clauses.push(m.clause)[i] == m.clauses[i]);
            assert(m.clauses.push(ClauseView { actions: m.clause.actions.push(m.action), ..m.clause })[i] == m.clauses[i]);
        } else {
            let cl = cs[i];
            assert forall|j: int| 0 <= j < cl.actions.len() implies !(copies_bits(
                #[trigger] cl.actions[j],
            ) && names_permissions(cl.actions[j])) by {
                if j < m.clause.actions.len() {
                    assert(m.clause.actions.push(m.action)[j] == m.clause.actions[j]);
                }
            }
        }
    }
}

} // verus!
