//! Value types for single entries of the textual model interchange format.
//!
//! A textual model lists one n-gram per line: an ordered token sequence with
//! a log-probability, and, below the maximum order, a back-off weight.  The
//! types here are plain immutable aggregates of those already-extracted
//! fields; a textual-format reader produces them, and conversion or checking
//! code compares them structurally.  Both numeric fields are held as the raw
//! IEEE-754 single-precision bit patterns of the log10-scaled values, stored
//! as given with no numeric transformation, so equality of records is exact
//! bitwise equality of their numbers.

use vstd::prelude::*;

verus! {

/// An ordered sequence of whitespace-delimited word tokens, kept as a single
/// textual value; its token count implies the n-gram's order.
#[derive(Debug, Clone)]
pub struct NGram {
    /// The token sequence, order-significant.
    pub ngram: String,
}

/// Log-probability and back-off weight of an n-gram below the maximum order,
/// both as IEEE-754 single-precision bit patterns.
#[derive(Debug, Clone, Copy)]
pub struct ProbBackoff {
    /// Bit pattern of the log10-scaled probability.
    pub log_prob: u32,
    /// Bit pattern of the log10-scaled back-off weight.
    pub backoff: u32,
}

/// A record of the maximum configured order: a log-probability (as an
/// IEEE-754 single-precision bit pattern) and its n-gram, with no back-off.
#[derive(Debug, Clone)]
pub struct ProbNgram {
    /// Bit pattern of the log10-scaled probability.
    pub prob: u32,
    /// The token sequence the probability belongs to.
    pub ngram: NGram,
}

/// The general-order record: probability and back-off paired with an n-gram.
#[derive(Debug, Clone)]
pub struct ProbBackoffNgram {
    /// The numeric pair of the record.
    pub prob_backoff: ProbBackoff,
    /// The token sequence the pair belongs to.
    pub ngram: NGram,
}

impl PartialEq for NGram {
    fn eq(&self, other: &NGram) -> (r: bool) {
        self.ngram == other.ngram
    }
}

impl vstd::std_specs::cmp::PartialEqSpecImpl for NGram {
    open spec fn obeys_eq_spec() -> bool {
        true
    }

    open spec fn eq_spec(&self, other: &NGram) -> bool {
        self.ngram@ == other.ngram@
    }
}

impl PartialEq for ProbBackoff {
    fn eq(&self, other: &ProbBackoff) -> (r: bool) {
        self.log_prob == other.log_prob && self.backoff == other.backoff
    }
}

impl vstd::std_specs::cmp::PartialEqSpecImpl for ProbBackoff {
    open spec fn obeys_eq_spec() -> bool {
        true
    }

    open spec fn eq_spec(&self, other: &ProbBackoff) -> bool {
        self.log_prob == other.log_prob && self.backoff == other.backoff
    }
}

impl PartialEq for ProbNgram {
    fn eq(&self, other: &ProbNgram) -> (r: bool) {
        self.prob == other.prob && self.ngram == other.ngram
    }
}

impl vstd::std_specs::cmp::PartialEqSpecImpl for ProbNgram {
    open spec fn obeys_eq_spec() -> bool {
        true
    }

    open spec fn eq_spec(&self, other: &ProbNgram) -> bool {
        self.prob == other.prob && self.ngram.ngram@ == other.ngram.ngram@
    }
}

impl PartialEq for ProbBackoffNgram {
    fn eq(&self, other: &ProbBackoffNgram) -> (r: bool) {
        self.prob_backoff == other.prob_backoff && self.ngram == other.ngram
    }
}

impl vstd::std_specs::cmp::PartialEqSpecImpl for ProbBackoffNgram {
    open spec fn obeys_eq_spec() -> bool {
        true
    }

    open spec fn eq_spec(&self, other: &ProbBackoffNgram) -> bool {
        &&& self.prob_backoff.log_prob == other.prob_backoff.log_prob
        &&& self.prob_backoff.backoff == other.prob_backoff.backoff
        &&& self.ngram.ngram@ == other.ngram.ngram@
    }
}

/// Structural equality of general-order records: two records compare equal
/// exactly when their log-probability bits, back-off bits and token
/// sequences all agree, so a change to any one field breaks equality.
pub proof fn lemma_record_equality(a: ProbBackoffNgram, b: ProbBackoffNgram)
    ensures
        vstd::std_specs::cmp::PartialEqSpec::eq_spec(&a, &b) <==> {
            &&& a.prob_backoff.log_prob == b.prob_backoff.log_prob
            &&& a.prob_backoff.backoff == b.prob_backoff.backoff
            &&& a.ngram.ngram@ == b.ngram.ngram@
        },
{
}

} // verus!
