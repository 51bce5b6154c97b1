//! The labels of one command, worked on one after the other.

use crate::config::Config;
use crate::host::{Answer, Host, Observed};
use crate::os::OS;
use crate::sync::{step_for, Operation, Outcome, Step};
use vstd::prelude::*;

verus! {

/// The texts of a list of labels.
pub open spec fn label_texts(labels: Seq<String>) -> Seq<Seq<char>> {
    Seq::new(labels.len(), |i: int| labels[i]@)
}

/// Whether `config` has an entry under `label` that is installed on `os`.
pub open spec fn installed(config: Config, os: OS, label: Seq<char>) -> bool {
    config.entries().contains_key(label) && config.entries()[label].target_text(os) is Some
}

impl Config {
    /// The labels that a command works on. Labels that were asked for are
    /// taken as they are, known to the store or not, in the order given.
    /// Where none was asked for, the command works on every label of the
    /// store that is installed on `os`, each once.
    pub fn select_labels(&self, os: OS, requested: Vec<String>) -> (r: Vec<String>)
        ensures
            requested@.len() > 0 ==> r == requested,
            requested@.len() == 0 ==> {
                &&& forall|i: int| 0 <= i < r@.len() ==> installed(*self, os, #[trigger] r@[i]@)
                &&& forall|label: Seq<char>|
                    installed(*self, os, label) ==> exists|i: int|
                        0 <= i < r@.len() && #[trigger] r@[i]@ == label
                &&& forall|i: int, j: int|
                    0 <= i < j < r@.len() ==> #[trigger] r@[i]@ != #[trigger] r@[j]@
            },
    {
        if requested.len() > 0 {
            return requested;
        }
        let pairs = self.get_entries();
        let mut out: Vec<String> = Vec::new();
        let ghost mut origin: Seq<int> = Seq::empty();
        let mut i: usize = 0;
        while i < pairs.len()
            invariant
                i <= pairs@.len(),
                origin.len() == out@.len(),
                forall|k: int|
                    0 <= k < out@.len() ==> 0 <= #[trigger] origin[k] < i && out@[k]@
                        == pairs@[origin[k]].0@ && pairs@[origin[k]].1.target_text(os) is Some,
                forall|a: int, b: int|
                    0 <= a < b < out@.len() ==> #[trigger] origin[a] < #[trigger] origin[b],
                forall|p: int|
                    0 <= p < i && (#[trigger] pairs@[p]).1.target_text(os) is Some ==> exists|k: int|
                        0 <= k < out@.len() && #[trigger] origin[k] == p,
            decreases pairs@.len() - i,
        {
            let pair = &pairs[i];
            let target = pair.1.get_current_target_path(os);
            if target.is_some() {
                let ghost before = origin;
                out.push(pair.0.clone());
                proof {
                    origin = origin.push(i as int);
                    assert forall|p: int|
                        0 <= p < i + 1 && (#[trigger] pairs@[p]).1.target_text(os) is Some implies exists|
                        k: int,
                    | 0 <= k < out@.len() && #[trigger] origin[k] == p by {
                        if p < i {
                            let k = choose|k: int| 0 <= k < before.len() && #[trigger] before[k] == p;
                            assert(origin[k] == p);
                        } else {
                            assert(origin[out@.len() - 1] == p);
                        }
                    }
                }
            }
            i += 1;
        }
        proof {
            assert forall|k: int| 0 <= k < out@.len() implies installed(
                *self,
                os,
                #[trigger] out@[k]@,
            ) by {
                let p = origin[k];
                assert(self.entries().contains_key(pairs@[p].0@));
            }
            assert forall|label: Seq<char>| installed(*self, os, label) implies exists|k: int|
                0 <= k < out@.len() && #[trigger] out@[k]@ == label by {
                let p = choose|p: int| 0 <= p < pairs@.len() && (#[trigger] pairs@[p]).0@ == label;
                assert(self.entries()[pairs@[p].0@] == *pairs@[p].1);
                let k = choose|k: int| 0 <= k < out@.len() && #[trigger] origin[k] == p;
                assert(out@[k]@ == label);
            }
            assert forall|a: int, b: int| 0 <= a < b < out@.len() implies #[trigger] out@[a]@
                != #[trigger] out@[b]@ by {
                assert(origin[a] < origin[b]);
                assert(pairs@[origin[a]].0@ != pairs@[origin[b]].0@);
            }
        }
        out
    }
}

/// A run over the labels of one command. Each label is worked on until its
/// work has ended, then the next one is taken up, however the work ended.
#[derive(Debug)]
pub struct Batch {
    labels: Vec<String>,
    at: usize,
    seen: Observed,
}

impl Batch {
    /// The labels of the run, in the order in which they are worked on.
    pub closed spec fn labels(&self) -> Seq<Seq<char>> {
        label_texts(self.labels@)
    }

    /// How many labels the run has left behind.
    pub closed spec fn position(&self) -> int {
        self.at as int
    }

    /// What is known about the label that the run is at.
    pub closed spec fn seen(&self) -> Observed {
        self.seen
    }

    /// Whether every label has been worked on.
    pub open spec fn finished(&self) -> bool {
        self.position() >= self.labels().len()
    }

    /// A run over `labels` that stands at the first of them.
    pub fn new(labels: Vec<String>) -> (r: Batch)
        ensures
            r.labels() == label_texts(labels@),
            r.position() == 0,
            r.seen() == Observed::nothing(),
    {
        Batch { labels, at: 0, seen: Observed::new() }
    }

    /// The label that the run is at, or nothing once it has finished.
    pub fn current(&self) -> (r: Option<&String>)
        ensures
            0 <= self.position(),
            match r {
                Some(label) => !self.finished() && label@ == self.labels()[self.position()],
                None => self.finished(),
            },
    {
        if self.at < self.labels.len() {
            Some(&self.labels[self.at])
        } else {
            None
        }
    }

    /// The next step of `operation` on the label that the run is at, or
    /// nothing once the run has finished.
    pub fn next_step(&self, config: &Config, host: &Host, operation: Operation) -> (r: Option<Step>)
        ensures
            match r {
                Some(step) => !self.finished() && step@ == step_for(
                    *config,
                    *host,
                    operation,
                    self.labels()[self.position()],
                    self.seen(),
                ),
                None => self.finished(),
            },
            r matches Some(Step::Done(Outcome::Differs { diff })) ==> diff@.len() > 0,
    {
        match self.current() {
            Some(label) => Some(config.next_step(host, operation, label, &self.seen)),
            None => None,
        }
    }

    /// Records an answer for the label that the run is at.
    pub fn record(&mut self, answer: Answer)
        ensures
            final(self).labels() == old(self).labels(),
            final(self).position() == old(self).position(),
            final(self).seen() == old(self).seen().with(answer),
    {
        self.seen.record(answer);
    }

    /// Leaves the label that the run is at and takes up the next one, with
    /// nothing known about it yet. No way in which the work on a label ends
    /// keeps the run from going on. A finished run stays as it is.
    pub fn proceed(&mut self)
        ensures
            final(self).labels() == old(self).labels(),
            !old(self).finished() ==> final(self).position() == old(self).position() + 1
                && final(self).seen() == Observed::nothing(),
            old(self).finished() ==> final(self).position() == old(self).position()
                && final(self).seen() == old(self).seen(),
    {
        if self.at < self.labels.len() {
            self.at = self.at + 1;
            self.seen = Observed::new();
        }
    }
}

} // verus!
