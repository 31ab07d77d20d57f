//! Going through the files of an invocation, one after the other.
//!
//! Reading and writing a file is not done here. A [`Batch`] says what is to
//! be done next, is told how that went, and keeps the outcome of each file.
//! A file that cannot be read or written counts as a failure, and the batch
//! goes on with the next file.

use vstd::prelude::*;

verus! {

/// How the work on one file ended.
#[derive(Clone, Copy, Debug, PartialEq, Eq, Structural)]
pub enum Outcome {
    /// The file was read and, where there was something to write, written.
    Success,
    /// The file could not be read.
    ReadFailed,
    /// The file was read, but could not be written.
    WriteFailed,
}

/// What is to be done next. The number in `Read` and `Write` is the index
/// of the file; the number in `Finish` is the number of failures.
#[derive(Clone, Copy, Debug, PartialEq, Eq, Structural)]
pub enum Action {
    Read(usize),
    Write(usize),
    Finish(usize),
}

/// How an action went.
#[derive(Clone, Copy, Debug, PartialEq, Eq, Structural)]
pub enum Event {
    ReadOk,
    ReadFailed,
    WriteOk,
    WriteFailed,
}

/// The state of a run over the files of an invocation.
#[derive(Clone, Debug, PartialEq, Eq)]
pub struct Batch {
    files: usize,
    writes: bool,
    writing: bool,
    outcomes: Vec<Outcome>,
}

/// [`Batch`] as plain values: the number of files, whether files are
/// written after they were read, whether the file at hand was read and is
/// to be written, and the outcomes of the files before it.
pub struct BatchView {
    pub files: nat,
    pub writes: bool,
    pub writing: bool,
    pub outcomes: Seq<Outcome>,
}

/// The number of failures among the outcomes.
pub open spec fn failures(outcomes: Seq<Outcome>) -> nat
    decreases outcomes.len(),
{
    if outcomes.len() == 0 {
        0
    } else {
        failures(outcomes.drop_last()) + if outcomes.last() == Outcome::Success {
            0nat
        } else {
            1nat
        }
    }
}

impl BatchView {
    /// The state before the first file.
    pub open spec fn start(files: nat, writes: bool) -> BatchView {
        BatchView { files, writes, writing: false, outcomes: Seq::empty() }
    }

    /// Whether every file has its outcome.
    pub open spec fn finished(self) -> bool {
        self.outcomes.len() >= self.files
    }

    /// What is to be done next.
    pub open spec fn pending(self) -> Action {
        if self.finished() {
            Action::Finish(failures(self.outcomes) as usize)
        } else if self.writing {
            Action::Write(self.outcomes.len() as usize)
        } else {
            Action::Read(self.outcomes.len() as usize)
        }
    }

    /// The state in which the file at hand has the given outcome.
    pub open spec fn closed_with(self, outcome: Outcome) -> BatchView {
        BatchView { writing: false, outcomes: self.outcomes.push(outcome), ..self }
    }

    /// The state after an event. An event that does not answer what is
    /// pending changes nothing.
    pub open spec fn after(self, event: Event) -> BatchView {
        if self.finished() {
            self
        } else if self.writing {
            match event {
                Event::WriteOk => self.closed_with(Outcome::Success),
                Event::WriteFailed => self.closed_with(Outcome::WriteFailed),
                _ => self,
            }
        } else {
            match event {
                Event::ReadOk => if self.writes {
                    BatchView { writing: true, ..self }
                } else {
                    self.closed_with(Outcome::Success)
                },
                Event::ReadFailed => self.closed_with(Outcome::ReadFailed),
                _ => self,
            }
        }
    }

    /// The state after the events that lead a file to the given outcome.
    pub open spec fn handled(self, outcome: Outcome) -> BatchView {
        match outcome {
            Outcome::Success => if self.writes {
                self.after(Event::ReadOk).after(Event::WriteOk)
            } else {
                self.after(Event::ReadOk)
            },
            Outcome::ReadFailed => self.after(Event::ReadFailed),
            Outcome::WriteFailed => self.after(Event::ReadOk).after(Event::WriteFailed),
        }
    }

    /// The state after the events that lead one file after the other to the
    /// given outcomes.
    pub open spec fn handled_all(self, outcomes: Seq<Outcome>) -> BatchView
        decreases outcomes.len(),
    {
        if outcomes.len() == 0 {
            self
        } else {
            self.handled_all(outcomes.drop_last()).handled(outcomes.last())
        }
    }
}

impl View for Batch {
    type V = BatchView;

    closed spec fn view(&self) -> BatchView {
        BatchView {
            files: self.files as nat,
            writes: self.writes,
            writing: self.writing,
            outcomes: self.outcomes@,
        }
    }
}

impl Batch {
    /// A run over `files` files, each of which is read and then written.
    pub fn new(files: usize) -> (r: Batch)
        ensures
            r@ == BatchView::start(files as nat, true),
    {
        Batch { files, writes: true, writing: false, outcomes: Vec::new() }
    }

    /// A run over `files` files, each of which is read and not written.
    pub fn reading(files: usize) -> (r: Batch)
        ensures
            r@ == BatchView::start(files as nat, false),
    {
        Batch { files, writes: false, writing: false, outcomes: Vec::new() }
    }

    /// The number of failures so far.
    pub fn errors(&self) -> (r: usize)
        ensures
            r == failures(self@.outcomes),
    {
        let mut count: usize = 0;
        let mut i: usize = 0;
        assert(self.outcomes@.take(0) =~= Seq::<Outcome>::empty());
        while i < self.outcomes.len()
            invariant
                i <= self.outcomes.len(),
                count <= i,
                count == failures(self.outcomes@.take(i as int)),
            decreases self.outcomes.len() - i,
        {
            proof {
                let next = self.outcomes@.take(i + 1);
                assert(next.drop_last() =~= self.outcomes@.take(i as int));
                assert(next.last() == self.outcomes@[i as int]);
            }
            match self.outcomes[i] {
                Outcome::Success => {},
                _ => {
                    count += 1;
                },
            }
            i += 1;
        }
        assert(self.outcomes@.take(i as int) =~= self.outcomes@);
        count
    }

    /// What is to be done next.
    pub fn pending(&self) -> (r: Action)
        ensures
            r == self@.pending(),
    {
        if self.outcomes.len() >= self.files {
            Action::Finish(self.errors())
        } else if self.writing {
            Action::Write(self.outcomes.len())
        } else {
            Action::Read(self.outcomes.len())
        }
    }

    /// The outcomes of the files that are done, in the order of the files.
    pub fn outcomes(&self) -> (r: &Vec<Outcome>)
        ensures
            r@ == self@.outcomes,
    {
        &self.outcomes
    }

    /// Takes note of how the pending action went, and says what is to be
    /// done next.
    pub fn record(&mut self, event: Event) -> (r: Action)
        ensures
            final(self)@ == old(self)@.after(event),
            r == final(self)@.pending(),
    {
        if self.outcomes.len() < self.files {
            if self.writing {
                match event {
                    Event::WriteOk => {
                        self.outcomes.push(Outcome::Success);
                        self.writing = false;
                    },
                    Event::WriteFailed => {
                        self.outcomes.push(Outcome::WriteFailed);
                        self.writing = false;
                    },
                    _ => {},
                }
            } else {
                match event {
                    Event::ReadOk => {
                        if self.writes {
                            self.writing = true;
                        } else {
                            self.outcomes.push(Outcome::Success);
                        }
                    },
                    Event::ReadFailed => {
                        self.outcomes.push(Outcome::ReadFailed);
                    },
                    _ => {},
                }
            }
        }
        self.pending()
    }
}

/// There are no more failures than outcomes, and there is none exactly
/// where every outcome is a success.
pub proof fn lemma_failures_bounds(outcomes: Seq<Outcome>)
    ensures
        failures(outcomes) <= outcomes.len(),
        failures(outcomes) == 0 <==> forall|i: int|
            0 <= i < outcomes.len() ==> outcomes[i] == Outcome::Success,
    decreases outcomes.len(),
{
    if outcomes.len() > 0 {
        let before = outcomes.drop_last();
        lemma_failures_bounds(before);
        if failures(outcomes) == 0 {
            assert forall|i: int| 0 <= i < outcomes.len() implies outcomes[i]
                == Outcome::Success by {
                if i < before.len() {
                    assert(outcomes[i] == before[i]);
                }
            }
        } else if outcomes.last() == Outcome::Success {
            let i = choose|i: int| 0 <= i < before.len() && before[i] != Outcome::Success;
            assert(outcomes[i] == before[i]);
        }
    }
}

/// Whatever the outcome of a file, the batch goes on: the file has its
/// outcome, and the next file is pending, or the end of the run.
pub proof fn lemma_handled_goes_on(batch: BatchView, outcome: Outcome)
    requires
        !batch.finished(),
        !batch.writing,
        batch.writes || outcome != Outcome::WriteFailed,
    ensures
        batch.handled(outcome) == batch.closed_with(outcome),
{
}

/// A run over files with the given outcomes keeps exactly these outcomes,
/// and ends with the number of failures among them.
pub proof fn lemma_run_counts_failures(files: nat, writes: bool, outcomes: Seq<Outcome>)
    requires
        outcomes.len() <= files,
        writes || forall|i: int| 0 <= i < outcomes.len() ==> outcomes[i] != Outcome::WriteFailed,
    ensures
        BatchView::start(files, writes).handled_all(outcomes) == (BatchView {
            outcomes,
            ..BatchView::start(files, writes)
        }),
        outcomes.len() == files && files <= usize::MAX ==> BatchView::start(
            files,
            writes,
        ).handled_all(outcomes).pending() == Action::Finish(failures(outcomes) as usize),
    decreases outcomes.len(),
{
    let start = BatchView::start(files, writes);
    if outcomes.len() == 0 {
        assert(outcomes =~= Seq::<Outcome>::empty());
    } else {
        let before = outcomes.drop_last();
        lemma_run_counts_failures(files, writes, before);
        let state = start.handled_all(before);
        assert(before.push(outcomes.last()) =~= outcomes);
        lemma_handled_goes_on(state, outcomes.last());
    }
}

} // verus!
