//! The values a mode string parses into, and their mathematical views.
use vstd::prelude::*;

verus! {

/// The operator of one action: `+`, `-` or `=`.
#[derive(PartialEq, Eq, Structural, Debug, Clone, Copy)]
pub enum ChmodActionOp {
    /// `+`: the named bits are added.
    Add,
    /// `-`: the named bits are removed.
    Remove,
    /// `=`: the bits become exactly the named ones.
    Assign,
}

/// One permission-modifying operation: an operator together with either the
/// subject classes whose bits are copied or the literal permission bits.
#[derive(Debug)]
pub struct ChmodAction {
    pub op: ChmodActionOp,
    pub copy_user: bool,
    pub copy_group: bool,
    pub copy_others: bool,
    pub read: bool,
    pub write: bool,
    pub execute: bool,
    pub execute_dir: bool,
    pub setuid: bool,
    pub sticky: bool,
}

/// An action with the `Assign` operator and no flag set.
pub open spec fn fresh_action() -> ChmodAction {
    ChmodAction {
        op: ChmodActionOp::Assign,
        copy_user: false,
        copy_group: false,
        copy_others: false,
        read: false,
        write: false,
        execute: false,
        execute_dir: false,
        setuid: false,
        sticky: false,
    }
}

impl ChmodAction {
    pub fn new() -> (r: ChmodAction)
        ensures
            r == fresh_action(),
    {
        ChmodAction {
            op: ChmodActionOp::Assign,
            copy_user: false,
            copy_group: false,
            copy_others: false,
            read: false,
            write: false,
            execute: false,
            execute_dir: false,
            setuid: false,
            sticky: false,
        }
    }
}

/// The mathematical value of a clause: its subject flags and its actions in order.
#[verifier::ext_equal]
pub struct ClauseView {
    pub user: bool,
    pub group: bool,
    pub others: bool,
    pub actions: Seq<ChmodAction>,
}

/// A clause with no subject and no action.
pub open spec fn empty_clause() -> ClauseView {
    ClauseView { user: false, group: false, others: false, actions: Seq::empty() }
}

/// A clause has content once it names a subject or holds an action.
pub open spec fn has_content(c: ClauseView) -> bool {
    c.user || c.group || c.others || c.actions.len() > 0
}

/// One comma-separated clause: the subject classes it targets and its actions.
/// No subject named means that the consumer resolves the targets itself.
#[derive(Debug)]
pub struct ChmodClause {
    pub user: bool,
    pub group: bool,
    pub others: bool,
    pub actions: Vec<ChmodAction>,
}

impl View for ChmodClause {
    type V = ClauseView;

    open spec fn view(&self) -> ClauseView {
        ClauseView { user: self.user, group: self.group, others: self.others, actions: self.actions@ }
    }
}

impl ChmodClause {
    pub fn new() -> (r: ChmodClause)
        ensures
            r@ == empty_clause(),
    {
        let r = ChmodClause { user: false, group: false, others: false, actions: Vec::new() };
        assert(r@ =~= empty_clause());
        r
    }

    /// Whether the clause names a subject or holds an action.
    pub fn has_content(&self) -> (r: bool)
        ensures
            r == has_content(self@),
    {
        self.user || self.group || self.others || self.actions.len() > 0
    }
}

/// A symbolic specification: its clauses, applied in order by the consumer.
#[derive(Debug)]
pub struct ChmodSymbolic {
    pub clauses: Vec<ChmodClause>,
}

impl View for ChmodSymbolic {
    type V = Seq<ClauseView>;

    open spec fn view(&self) -> Seq<ClauseView> {
        self.clauses@.map_values(|c: ChmodClause| c@)
    }
}

impl ChmodSymbolic {
    pub fn new() -> (r: ChmodSymbolic)
        ensures
            r@ == Seq::<ClauseView>::empty(),
    {
        let r = ChmodSymbolic { clauses: Vec::new() };
        assert(r@ =~= Seq::<ClauseView>::empty());
        r
    }
}

/// The mathematical value of a parsed mode.
pub enum ModeView {
    Absolute(u32),
    Symbolic(Seq<ClauseView>),
}

/// A parsed mode: an absolute numeric mode or a symbolic specification.
#[derive(Debug)]
pub enum ChmodMode {
    Absolute(u32),
    Symbolic(ChmodSymbolic),
}

impl View for ChmodMode {
    type V = ModeView;

    open spec fn view(&self) -> ModeView {
        match self {
            ChmodMode::Absolute(m) => ModeView::Absolute(*m),
            ChmodMode::Symbolic(s) => ModeView::Symbolic(s@),
        }
    }
}

} // verus!
