//! Grouping of commands and the outcome of running commands in sequence.

use vstd::prelude::*;
use crate::event::BatchMsgInternal;

verus! {

/// A group of commands that are executed concurrently.
pub struct Batch<C> {
    commands: Vec<C>,
}

impl<C> View for Batch<C> {
    type V = Seq<C>;

    /// The commands of the batch, in order.
    closed spec fn view(&self) -> Seq<C> {
        self.commands@
    }
}

#[allow(dead_code)]
impl<C> Batch<C> {
    /// Creates a new `Batch` from a vector of commands.
    pub(crate) fn new(commands: Vec<C>) -> (b: Self)
        ensures
            b@ == commands@,
    {
        Self { commands }
    }

    /// Consumes the `Batch` and returns the inner vector of commands.
    pub(crate) fn into_commands(self) -> (v: Vec<C>)
        ensures
            v@ == self@,
    {
        self.commands
    }
}

/// The messages among `results`, in order.
pub open spec fn produced<M>(results: Seq<Option<M>>) -> Seq<M>
    decreases results.len(),
{
    if results.len() == 0 {
        Seq::empty()
    } else {
        produced(results.drop_last()) + match results.last() {
            Some(m) => seq![m],
            None => Seq::empty(),
        }
    }
}

/// What a sequence of commands produces once each has run, given what each
/// produced in order: nothing when none produced a message, otherwise one
/// batch of all the messages produced, in order.
pub fn sequence_outcome<M>(results: Vec<Option<M>>) -> (r: Option<BatchMsgInternal<M>>)
    ensures
        produced(results@).len() == 0 ==> r is None,
        produced(results@).len() > 0 ==> (r matches Some(b) && b.messages@ == produced(results@)),
{
    let ghost all = results@;
    let mut messages: Vec<M> = Vec::new();
    let ghost mut i: int = 0;
    let mut results = results;
    // `rest` holds the results not yet looked at, last one first.
    let mut rest: Vec<Option<M>> = Vec::new();
    while results.len() > 0
        invariant
            results@.len() + rest@.len() == all.len(),
            results@ == all.take(results@.len() as int),
            forall|j: int| 0 <= j < rest@.len() ==> rest@[j] == all[all.len() - 1 - j],
        decreases results@.len(),
    {
        let ghost before = results@;
        let item = results.pop().unwrap();
        assert(item == all[before.len() - 1]);
        assert(results@ =~= all.take(results@.len() as int));
        rest.push(item);
    }
    assert(all.take(0) =~= Seq::<Option<M>>::empty());
    while rest.len() > 0
        invariant
            i + rest@.len() == all.len(),
            0 <= i,
            forall|j: int| 0 <= j < rest@.len() ==> rest@[j] == all[all.len() - 1 - j],
            messages@ == produced(all.take(i)),
        decreases rest@.len(),
    {
        let item = rest.pop().unwrap();
        assert(item == all[i]);
        assert(all.take(i + 1).drop_last() =~= all.take(i));
        match item {
            Some(m) => {
                messages.push(m);
            },
            None => {},
        }
        assert(messages@ =~= produced(all.take(i + 1)));
        proof {
            i = i + 1;
        }
    }
    assert(all.take(i) =~= all);
    if messages.len() == 0 {
        None
    } else {
        Some(BatchMsgInternal { messages })
    }
}

} // verus!
