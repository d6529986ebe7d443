//! What the state machines of the library have in common.

use vstd::prelude::*;
use crate::text::texts;

verus! {

/// A step of a state machine: the stage that follows, the lines to print, and what
/// to do after that.
#[verifier::ext_equal]
pub struct Step<G, A, L> {
    pub stage: G,
    pub lines: L,
    pub action: A,
}

impl<G: View, A: View> View for Step<G, A, Vec<String>> {
    type V = Step<G::V, A::V, Seq<Seq<char>>>;

    open spec fn view(&self) -> Step<G::V, A::V, Seq<Seq<char>>> {
        Step { stage: self.stage@, lines: texts(self.lines@), action: self.action@ }
    }
}

/// No lines.
pub(crate) fn no_lines() -> (r: Vec<String>)
    ensures
        texts(r@) == Seq::<Seq<char>>::empty(),
        r@.len() == 0,
{
    let lines: Vec<String> = Vec::new();
    assert(texts(lines@) =~= Seq::empty());
    lines
}

/// One line.
pub(crate) fn one_line(line: String) -> (r: Vec<String>)
    ensures
        texts(r@) == seq![line@],
        r@ == seq![line],
{
    let mut lines: Vec<String> = Vec::new();
    lines.push(line);
    assert(texts(lines@) =~= seq![line@]);
    lines
}

/// Two lines.
pub(crate) fn two_lines(first: String, second: String) -> (r: Vec<String>)
    ensures
        texts(r@) == seq![first@, second@],
        r@ == seq![first, second],
{
    let mut lines: Vec<String> = Vec::new();
    lines.push(first);
    lines.push(second);
    assert(texts(lines@) =~= seq![first@, second@]);
    lines
}

/// What is seen of a step is what is seen of its parts.
pub proof fn steps_show_their_parts<G: View, A: View>(step: Step<G, A, Vec<String>>)
    ensures
        step@.stage == step.stage@,
        step@.action == step.action@,
        step@.lines == texts(step.lines@),
{
}

} // verus!
