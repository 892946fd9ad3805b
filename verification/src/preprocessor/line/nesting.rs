//! The rule by which the depths of successive lines nest.
//!
//! A file is indented with one character only, and the depths of its lines
//! behave like a stack of open blocks: a deeper line opens a block, an equally
//! deep line stays in it, and a shallower line must return to the depth of a
//! block that is still open. This module states the rule over plain values;
//! the validators of this crate are proved to follow it.

use super::error::ErrorKind;
use super::indentation::IndentationKind;
use vstd::prelude::*;

verus! {

/// What has to be remembered of the lines seen so far.
pub struct NestingState {
    /// The indentation character of the file, once an indented line has
    /// shown it.
    pub used_kind: Option<IndentationKind>,
    /// The depths of the open blocks, the outermost first. Empty until the
    /// first line with content has been seen.
    pub stack: Seq<nat>,
}

/// Whether a line is accepted, or else what is wrong with it and at which
/// column.
pub type Verdict = Result<(), (ErrorKind, nat)>;

impl NestingState {
    /// The state before any line.
    pub open spec fn initial() -> Self {
        NestingState { used_kind: None, stack: Seq::empty() }
    }

    /// The states that lines can lead to: the recorded kind is a real
    /// character, the outermost block has depth 0, and each block is deeper
    /// than the one around it.
    pub open spec fn wf(self) -> bool {
        &&& self.used_kind != Some(IndentationKind::Absent)
        &&& self.stack.len() > 0 ==> self.stack[0] == 0
        &&& forall|i: int, j: int|
            0 <= i < j < self.stack.len() ==> self.stack[i] < self.stack[j]
    }
}

/// A line indented by `depth` characters of `kind` names an indentation
/// character of its own: lines at depth 0 name none.
pub open spec fn names_kind(kind: IndentationKind, depth: nat) -> bool {
    depth > 0 && kind != IndentationKind::Absent
}

/// The line uses another indentation character than the file does.
pub open spec fn kind_conflicts(
    used: Option<IndentationKind>,
    kind: IndentationKind,
    depth: nat,
) -> bool {
    names_kind(kind, depth) && used is Some && used != Some(kind)
}

/// The indentation character of the file after the line.
pub open spec fn kind_after(
    used: Option<IndentationKind>,
    kind: IndentationKind,
    depth: nat,
) -> Option<IndentationKind> {
    if used is None && names_kind(kind, depth) {
        Some(kind)
    } else {
        used
    }
}

/// The open blocks that a line at `depth` leaves open: those deeper than the
/// line are closed, the innermost first.
pub open spec fn unwind(stack: Seq<nat>, depth: nat) -> Seq<nat>
    decreases stack.len(),
{
    if stack.len() > 0 && stack.last() > depth {
        unwind(stack.drop_last(), depth)
    } else {
        stack
    }
}

/// The column at which a line at `depth` is reported, if it fits no block.
pub open spec fn depth_fault(stack: Seq<nat>, depth: nat) -> Option<nat> {
    if depth == 0 {
        None
    } else if stack.len() == 0 {
        Some(0)
    } else if depth > stack.last() {
        None
    } else if unwind(stack, depth).len() > 0 && unwind(stack, depth).last() == depth {
        None
    } else {
        Some(depth)
    }
}

/// The open blocks after a line at `depth`.
pub open spec fn stack_after(stack: Seq<nat>, depth: nat) -> Seq<nat> {
    if depth == 0 {
        seq![0nat]
    } else if stack.len() == 0 {
        stack
    } else if depth > stack.last() {
        stack.push(depth)
    } else {
        unwind(stack, depth)
    }
}

/// The verdict on a line indented by `depth` characters of `kind`. The
/// character is judged first, the depth second.
pub open spec fn verdict(state: NestingState, kind: IndentationKind, depth: nat) -> Verdict {
    if kind_conflicts(state.used_kind, kind, depth) {
        Err((ErrorKind::InconsistentIndentation, 0nat))
    } else {
        match depth_fault(state.stack, depth) {
            Some(col) => Err((ErrorKind::UnexpectedIndentation, col)),
            None => Ok(()),
        }
    }
}

/// The state after a line indented by `depth` characters of `kind`. A line
/// of the wrong character changes nothing.
pub open spec fn next_state(state: NestingState, kind: IndentationKind, depth: nat) -> NestingState {
    if kind_conflicts(state.used_kind, kind, depth) {
        state
    } else {
        NestingState {
            used_kind: kind_after(state.used_kind, kind, depth),
            stack: stack_after(state.stack, depth),
        }
    }
}

/// The state after the lines `lines`, each given by its kind and depth, in
/// the order of the file.
pub open spec fn state_after(state: NestingState, lines: Seq<(IndentationKind, nat)>) -> NestingState
    decreases lines.len(),
{
    if lines.len() == 0 {
        state
    } else {
        next_state(state_after(state, lines.drop_last()), lines.last().0, lines.last().1)
    }
}

/// Unwinding keeps a front part of the stack: exactly the blocks that are no
/// deeper than the line, where each block is deeper than the one around it.
pub proof fn lemma_unwind_keeps_shallow(stack: Seq<nat>, depth: nat)
    ensures
        unwind(stack, depth).len() <= stack.len(),
        unwind(stack, depth) == stack.take(unwind(stack, depth).len() as int),
        unwind(stack, depth).len() > 0 ==> unwind(stack, depth).last() <= depth,
        (forall|i: int, j: int| 0 <= i < j < stack.len() ==> stack[i] < stack[j]) ==> forall|
            i: int,
        |
            0 <= i < stack.len() ==> (i < unwind(stack, depth).len() <==> #[trigger] stack[i]
                <= depth),
    decreases stack.len(),
{
    if stack.len() > 0 && stack.last() > depth {
        let rest = stack.drop_last();
        lemma_unwind_keeps_shallow(rest, depth);
        let kept = unwind(rest, depth).len() as int;
        if forall|i: int, j: int| 0 <= i < j < stack.len() ==> stack[i] < stack[j] {
            assert forall|i: int| 0 <= i < stack.len() implies (i < kept <==> #[trigger] stack[i]
                <= depth) by {
                if i < rest.len() {
                    assert(rest[i] == stack[i]);
                }
            }
        }
    } else {
        if forall|i: int, j: int| 0 <= i < j < stack.len() ==> stack[i] < stack[j] {
            assert forall|i: int| 0 <= i < stack.len() implies #[trigger] stack[i] <= depth by {
                if i < stack.len() - 1 {
                    assert(stack[i] < stack[stack.len() - 1]);
                }
            }
        }
    }
}

/// No line leads out of the well-formed states.
pub proof fn lemma_next_state_wf(state: NestingState, kind: IndentationKind, depth: nat)
    requires
        state.wf(),
    ensures
        next_state(state, kind, depth).wf(),
{
    let next = next_state(state, kind, depth);
    if !kind_conflicts(state.used_kind, kind, depth) && depth > 0 && state.stack.len() > 0 {
        if depth > state.stack.last() {
            assert forall|i: int, j: int| 0 <= i < j < next.stack.len() implies next.stack[i]
                < next.stack[j] by {
                if j == state.stack.len() {
                    if i < state.stack.len() - 1 {
                        assert(state.stack[i] < state.stack[state.stack.len() - 1]);
                    }
                }
            }
        } else {
            lemma_unwind_keeps_shallow(state.stack, depth);
        }
    }
}

/// Every state that lines lead to from a well-formed state is well formed;
/// the state before any line is one.
pub proof fn lemma_state_after_wf(state: NestingState, lines: Seq<(IndentationKind, nat)>)
    requires
        state.wf(),
    ensures
        NestingState::initial().wf(),
        state_after(state, lines).wf(),
    decreases lines.len(),
{
    if lines.len() > 0 {
        lemma_state_after_wf(state, lines.drop_last());
        lemma_next_state_wf(
            state_after(state, lines.drop_last()),
            lines.last().0,
            lines.last().1,
        );
    }
}

/// A block is open only at a depth that a line has had: every open depth but
/// 0 is the depth of one of the lines seen.
pub proof fn lemma_open_depths_were_seen(lines: Seq<(IndentationKind, nat)>, depth: nat)
    requires
        depth > 0,
        state_after(NestingState::initial(), lines).stack.contains(depth),
    ensures
        exists|i: int| 0 <= i < lines.len() && (#[trigger] lines[i]).1 == depth,
    decreases lines.len(),
{
    if lines.len() == 0 {
        assert(NestingState::initial().stack.len() == 0);
    } else {
        let before = state_after(NestingState::initial(), lines.drop_last());
        let after = next_state(before, lines.last().0, lines.last().1);
        let at = choose|i: int| 0 <= i < after.stack.len() && after.stack[i] == depth;
        if lines.last().1 == depth {
            assert(lines[lines.len() - 1].1 == depth);
        } else {
            if after.stack != before.stack {
                if before.stack.len() > 0 && lines.last().1 > before.stack.last() {
                    assert(before.stack[at] == depth);
                } else {
                    lemma_unwind_keeps_shallow(before.stack, lines.last().1);
                }
            }
            lemma_open_depths_were_seen(lines.drop_last(), depth);
            let i = choose|i: int|
                0 <= i < lines.drop_last().len() && (#[trigger] lines.drop_last()[i]).1 == depth;
            assert(lines[i].1 == depth);
        }
    }
}

/// After lines with content, a line of the right character that returns to
/// a depth which no line before it has had is unexpected, and reported at
/// that depth.
pub proof fn lemma_unseen_depth_is_unexpected(
    lines: Seq<(IndentationKind, nat)>,
    kind: IndentationKind,
    depth: nat,
)
    requires
        state_after(NestingState::initial(), lines).stack.len() > 0,
        0 < depth < state_after(NestingState::initial(), lines).stack.last(),
        forall|i: int| 0 <= i < lines.len() ==> (#[trigger] lines[i]).1 != depth,
        !kind_conflicts(state_after(NestingState::initial(), lines).used_kind, kind, depth),
    ensures
        verdict(state_after(NestingState::initial(), lines), kind, depth) == Err::<
            (),
            (ErrorKind, nat),
        >((ErrorKind::UnexpectedIndentation, depth)),
{
    let state = state_after(NestingState::initial(), lines);
    lemma_state_after_wf(NestingState::initial(), lines);
    if state.stack.contains(depth) {
        lemma_open_depths_were_seen(lines, depth);
    }
    lemma_depth_must_be_open(state, kind, depth);
}

/// The first line with content must stand at depth 0: an indented one is
/// unexpected, and reported at column 0.
pub proof fn lemma_first_line_is_flush(kind: IndentationKind, depth: nat)
    ensures
        depth == 0 ==> verdict(NestingState::initial(), kind, depth) == Ok::<
            (),
            (ErrorKind, nat),
        >(()),
        depth > 0 ==> verdict(NestingState::initial(), kind, depth) == Err::<
            (),
            (ErrorKind, nat),
        >((ErrorKind::UnexpectedIndentation, 0nat)),
{
}

/// Once content has been seen, a line of the right character is accepted if
/// it is deeper than the innermost open block or as deep as a block that is
/// still open; any other depth is unexpected, and reported at that depth.
pub proof fn lemma_depth_must_be_open(state: NestingState, kind: IndentationKind, depth: nat)
    requires
        state.wf(),
        state.stack.len() > 0,
        !kind_conflicts(state.used_kind, kind, depth),
    ensures
        depth > state.stack.last() || state.stack.contains(depth) ==> verdict(state, kind, depth)
            == Ok::<(), (ErrorKind, nat)>(()),
        !(depth > state.stack.last() || state.stack.contains(depth)) ==> verdict(
            state,
            kind,
            depth,
        ) == Err::<(), (ErrorKind, nat)>((ErrorKind::UnexpectedIndentation, depth)),
        verdict(state, kind, depth) is Ok ==> next_state(state, kind, depth).stack.last() == depth,
{
    let stack = state.stack;
    lemma_unwind_keeps_shallow(stack, depth);
    let kept = unwind(stack, depth);
    if depth == 0 {
        assert(stack[0] == 0);
    } else if depth <= stack.last() {
        if stack.contains(depth) {
            let i = choose|i: int| 0 <= i < stack.len() && stack[i] == depth;
            if i < kept.len() - 1 {
                assert(stack[i] < stack[kept.len() - 1]);
            }
        } else {
            assert(kept.last() == stack[kept.len() - 1]);
        }
    } else {
        if stack.contains(depth) {
            let i = choose|i: int| 0 <= i < stack.len() && stack[i] == depth;
            if i < stack.len() - 1 {
                assert(stack[i] < stack[stack.len() - 1]);
            }
        }
    }
}

/// The first indented line settles the indentation character of the file.
pub proof fn lemma_first_indent_sets_kind(state: NestingState, kind: IndentationKind, depth: nat)
    requires
        state.used_kind is None,
        names_kind(kind, depth),
    ensures
        next_state(state, kind, depth).used_kind == Some(kind),
{
}

/// Once the indentation character is settled, an indented line of the other
/// character is inconsistent, at whatever depth, and reported at column 0.
pub proof fn lemma_other_kind_is_inconsistent(
    state: NestingState,
    kind: IndentationKind,
    depth: nat,
)
    requires
        state.used_kind is Some,
        names_kind(kind, depth),
        state.used_kind != Some(kind),
    ensures
        verdict(state, kind, depth) == Err::<(), (ErrorKind, nat)>(
            (ErrorKind::InconsistentIndentation, 0nat),
        ),
        next_state(state, kind, depth) == state,
{
}

/// A line at depth 0 is never at fault, whatever its character.
pub proof fn lemma_flush_line_is_accepted(state: NestingState, kind: IndentationKind)
    ensures
        verdict(state, kind, 0) == Ok::<(), (ErrorKind, nat)>(()),
        next_state(state, kind, 0).stack == seq![0nat],
        next_state(state, kind, 0).used_kind == state.used_kind,
{
}

/// The indentation character of a file, once settled, stays the same
/// whatever lines follow.
pub proof fn lemma_kind_is_settled(state: NestingState, lines: Seq<(IndentationKind, nat)>)
    requires
        state.used_kind is Some,
    ensures
        state_after(state, lines).used_kind == state.used_kind,
    decreases lines.len(),
{
    if lines.len() > 0 {
        lemma_kind_is_settled(state, lines.drop_last());
    }
}

} // verus!
