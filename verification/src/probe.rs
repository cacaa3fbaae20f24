//! Probing: which of the candidate links of a recording a host serves.
//!
//! The probes themselves are requests that the caller makes, one for each
//! candidate, in any order and as many at a time as it likes. A
//! [`ProbeBoard`] keeps what came back and reports the links that were
//! served in the order of the candidates, whatever the order of arrival.

use vstd::prelude::*;
use crate::text::texts;

verus! {

/// What one probe of a candidate link came back with.
#[derive(Debug, Clone, Copy, PartialEq, Eq, Structural)]
pub enum Probe {
    /// The host answered with this status.
    Status(u16),
    /// The request failed before any status arrived.
    Failed,
}

impl Probe {
    /// A probe succeeds on a status from 200 to 299, and on nothing else.
    pub open spec fn succeeded(self) -> bool {
        match self {
            Probe::Status(status) => 200 <= status < 300,
            Probe::Failed => false,
        }
    }

    /// Whether the host serves the link.
    pub fn is_success(&self) -> (r: bool)
        ensures
            r == self.succeeded(),
    {
        match self {
            Probe::Status(status) => 200 <= *status && *status < 300,
            Probe::Failed => false,
        }
    }
}

/// Whether the probe at `index` has come back with a success.
pub open spec fn served(marks: Seq<Option<Probe>>, index: int) -> bool {
    &&& 0 <= index < marks.len()
    &&& marks[index] matches Some(probe)
    &&& probe.succeeded()
}

/// The indices of the successful probes, in rising order.
pub open spec fn served_indices(marks: Seq<Option<Probe>>) -> Seq<int>
    decreases marks.len(),
{
    if marks.len() == 0 {
        Seq::empty()
    } else if served(marks, marks.len() - 1) {
        served_indices(marks.drop_last()).push(marks.len() - 1)
    } else {
        served_indices(marks.drop_last())
    }
}

/// The state of a round of probes: the candidate links, and for each what its
/// probe came back with, if it has.
pub ghost struct BoardView {
    pub links: Seq<Seq<char>>,
    pub marks: Seq<Option<Probe>>,
}

impl BoardView {
    /// Every link has its mark.
    pub open spec fn wf(self) -> bool {
        self.links.len() == self.marks.len()
    }

    /// Whether an outcome for `index` is taken: the index names a candidate
    /// that has not been probed yet. A second outcome for one candidate is
    /// not: the first attempt is the one that counts.
    pub open spec fn accepts(self, index: int) -> bool {
        0 <= index < self.marks.len() && self.marks[index] is None
    }

    /// The state after the outcome of the probe at `index` has arrived.
    pub open spec fn record(self, index: int, outcome: Probe) -> BoardView {
        if self.accepts(index) {
            BoardView { links: self.links, marks: self.marks.update(index, Some(outcome)) }
        } else {
            self
        }
    }

    /// Whether every candidate has been probed.
    pub open spec fn complete(self) -> bool {
        forall|i: int| 0 <= i < self.marks.len() ==> (#[trigger] self.marks[i]) is Some
    }

    /// The links that were served, in the order of the candidates.
    pub open spec fn successes(self) -> Seq<Seq<char>> {
        let indices = served_indices(self.marks);
        Seq::new(indices.len(), |k: int| self.links[indices[k]])
    }
}

/// How a round of probes ended.
#[derive(Debug, Clone, PartialEq, Eq)]
pub enum Resolution {
    /// These links were served, in the order of the candidates.
    Found(Vec<String>),
    /// No host served the recording. This is an ordinary outcome, not a
    /// failure: the recording may be older or newer than the known hosts.
    NotFound,
}

/// A round of probes in progress.
#[derive(Debug)]
pub struct ProbeBoard {
    links: Vec<String>,
    marks: Vec<Option<Probe>>,
}

impl View for ProbeBoard {
    type V = BoardView;

    closed spec fn view(&self) -> BoardView {
        BoardView { links: texts(self.links@), marks: self.marks@ }
    }
}

impl ProbeBoard {
    /// Every link has its mark, at all times.
    #[verifier::type_invariant]
    spec fn well_formed(&self) -> bool {
        self.links@.len() == self.marks@.len()
    }

    /// A board for `links`, none of them probed yet.
    pub fn new(links: Vec<String>) -> (r: ProbeBoard)
        ensures
            r@.wf(),
            r@.links == texts(links@),
            forall|i: int| 0 <= i < r@.marks.len() ==> (#[trigger] r@.marks[i]) is None,
    {
        let mut marks: Vec<Option<Probe>> = Vec::new();
        let mut i: usize = 0;
        while i < links.len()
            invariant
                i <= links@.len(),
                marks@.len() == i,
                forall|k: int| 0 <= k < i ==> (#[trigger] marks@[k]) is None,
            decreases links@.len() - i,
        {
            marks.push(None);
            i += 1;
        }
        ProbeBoard { links, marks }
    }

    /// The candidate links, in their order.
    pub fn links(&self) -> (r: &Vec<String>)
        ensures
            texts(r@) == self@.links,
            self@.wf(),
    {
        proof {
            use_type_invariant(self);
        }
        &self.links
    }

    /// Takes the outcome of the probe of candidate `index`. An index that
    /// names no candidate, or one whose outcome is already known, changes
    /// nothing and is answered with `false`.
    pub fn record(&mut self, index: usize, outcome: Probe) -> (accepted: bool)
        ensures
            final(self)@.wf(),
            accepted == old(self)@.accepts(index as int),
            final(self)@ == old(self)@.record(index as int, outcome),
    {
        proof {
            use_type_invariant(&*self);
        }
        if index < self.marks.len() && self.marks[index].is_none() {
            self.marks[index] = Some(outcome);
            true
        } else {
            false
        }
    }

    /// The first candidate that has not been probed yet, if there is one.
    pub fn next_unprobed(&self) -> (r: Option<usize>)
        ensures
            match r {
                Some(index) => self@.accepts(index as int) && forall|i: int|
                    0 <= i < index ==> (#[trigger] self@.marks[i]) is Some,
                None => self@.complete(),
            },
    {
        let mut i: usize = 0;
        while i < self.marks.len()
            invariant
                i <= self.marks@.len(),
                forall|k: int| 0 <= k < i ==> (#[trigger] self.marks@[k]) is Some,
            decreases self.marks@.len() - i,
        {
            if self.marks[i].is_none() {
                return Some(i);
            }
            i += 1;
        }
        None
    }

    /// The links that were served so far, in the order of the candidates.
    pub fn successes(&self) -> (r: Vec<String>)
        ensures
            texts(r@) == self@.successes(),
            self@.wf(),
    {
        proof {
            use_type_invariant(self);
        }
        let mut r: Vec<String> = Vec::new();
        let ghost mut indices: Seq<int> = Seq::empty();
        let mut i: usize = 0;
        while i < self.marks.len()
            invariant
                self.marks@.len() == self.links@.len(),
                i <= self.marks@.len(),
                indices == served_indices(self.marks@.take(i as int)),
                r@.len() == indices.len(),
                forall|k: int|
                    0 <= k < indices.len() ==> 0 <= #[trigger] indices[k] < i && r@[k]@
                        == self.links@[indices[k]]@,
            decreases self.marks@.len() - i,
        {
            proof {
                assert(self.marks@.take(i + 1).drop_last() == self.marks@.take(i as int));
            }
            let hit = match self.marks[i] {
                Some(probe) => probe.is_success(),
                None => false,
            };
            if hit {
                r.push(self.links[i].clone());
                proof {
                    indices = indices.push(i as int);
                }
            }
            i += 1;
        }
        proof {
            assert(self.marks@.take(i as int) == self.marks@);
            assert(texts(r@) =~= self@.successes());
        }
        r
    }

    /// How the round ended: `None` while a probe is outstanding; else the
    /// links that were served, or that there are none.
    pub fn resolution(&self) -> (r: Option<Resolution>)
        ensures
            r is Some <==> self@.complete(),
            r matches Some(Resolution::NotFound) ==> self@.successes().len() == 0,
            r matches Some(Resolution::Found(links)) ==> links@.len() > 0 && texts(links@)
                == self@.successes(),
            self@.complete() && (forall|i: int| !served(self@.marks, i)) ==> r == Some(
                Resolution::NotFound,
            ),
    {
        if self.next_unprobed().is_some() {
            return None;
        }
        let links = self.successes();
        proof {
            if forall|i: int| !served(self@.marks, i) {
                no_success_finds_nothing(self@);
            }
        }
        if links.len() == 0 {
            Some(Resolution::NotFound)
        } else {
            Some(Resolution::Found(links))
        }
    }
}

/// The indices that [`served_indices`] lists are those of the successful
/// probes, each once and in rising order.
pub proof fn served_indices_are_exact(marks: Seq<Option<Probe>>)
    ensures
        forall|k: int|
            0 <= k < served_indices(marks).len() ==> served(
                marks,
                #[trigger] served_indices(marks)[k],
            ),
        forall|j: int, k: int|
            0 <= j < k < served_indices(marks).len() ==> served_indices(marks)[j]
                < served_indices(marks)[k],
        forall|i: int| served(marks, i) ==> served_indices(marks).contains(i),
    decreases marks.len(),
{
    if marks.len() > 0 {
        let front = marks.drop_last();
        let last = marks.len() - 1;
        served_indices_are_exact(front);
        assert forall|i: int| served(marks, i) implies served_indices(marks).contains(i) by {
            if i < last {
                assert(served(front, i));
                let k = choose|k: int|
                    0 <= k < served_indices(front).len() && served_indices(front)[k] == i;
                assert(served_indices(marks)[k] == i);
            } else {
                assert(served_indices(marks)[served_indices(marks).len() - 1] == i);
            }
        }
        assert forall|k: int| 0 <= k < served_indices(marks).len() implies served(
            marks,
            #[trigger] served_indices(marks)[k],
        ) by {
            if k < served_indices(front).len() {
                assert(served(front, served_indices(front)[k]));
            }
        }
        assert forall|j: int, k: int| 0 <= j < k < served_indices(marks).len() implies served_indices(
            marks,
        )[j] < served_indices(marks)[k] by {
            assert(served(front, served_indices(front)[j]));
        }
    }
}

/// The links reported are exactly the candidates whose probe succeeded, and
/// they stand in the order of the candidates: there is a rising list of
/// indices of successful probes, none left out, that the report follows.
pub proof fn successes_keep_candidate_order(board: BoardView)
    requires
        board.wf(),
    ensures
        board.successes().len() == served_indices(board.marks).len(),
        forall|k: int|
            0 <= k < board.successes().len() ==> {
                let i = served_indices(board.marks)[k];
                served(board.marks, i) && #[trigger] board.successes()[k] == board.links[i]
            },
        forall|j: int, k: int|
            0 <= j < k < board.successes().len() ==> served_indices(board.marks)[j]
                < served_indices(board.marks)[k],
        forall|i: int| served(board.marks, i) ==> served_indices(board.marks).contains(i),
{
    served_indices_are_exact(board.marks);
}

/// Where no probe succeeded, nothing is reported.
pub proof fn no_success_finds_nothing(board: BoardView)
    requires
        forall|i: int| !served(board.marks, i),
    ensures
        board.successes().len() == 0,
{
    served_indices_are_exact(board.marks);
    if served_indices(board.marks).len() > 0 {
        assert(served(board.marks, served_indices(board.marks)[0]));
    }
}

/// The order in which the outcomes of two different candidates arrive does
/// not matter: either order leaves the same state, and so the same report.
pub proof fn arrival_order_is_immaterial(
    board: BoardView,
    first: int,
    first_outcome: Probe,
    second: int,
    second_outcome: Probe,
)
    requires
        first != second,
    ensures
        board.record(first, first_outcome).record(second, second_outcome) == board.record(
            second,
            second_outcome,
        ).record(first, first_outcome),
        board.record(first, first_outcome).record(second, second_outcome).successes()
            == board.record(second, second_outcome).record(first, first_outcome).successes(),
{
    let a = board.record(first, first_outcome).record(second, second_outcome);
    let b = board.record(second, second_outcome).record(first, first_outcome);
    assert(a.marks =~= b.marks);
}

/// An outcome that arrives for a candidate already probed changes nothing:
/// one attempt for each host is the one that counts.
pub proof fn second_outcome_is_ignored(board: BoardView, index: int, outcome: Probe, later: Probe)
    ensures
        board.record(index, outcome).record(index, later) == board.record(index, outcome),
{
}

} // verus!
