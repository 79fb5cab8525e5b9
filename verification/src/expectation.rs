//! Fixture record sequences for checking a textual-format reader.
//!
//! These are the expected parses of a small reference model, written out
//! declaratively so that reader output can be compared against them record
//! by record.  Numeric fields are the IEEE-754 single-precision bit patterns
//! of the written log10-scaled values; each row's source values stand beside
//! it.

use vstd::prelude::*;

use crate::records::NGram;
use crate::records::ProbBackoff;
use crate::records::ProbBackoffNgram;
use crate::records::ProbNgram;

verus! {

/// The record holds exactly this probability bit pattern and token sequence.
pub open spec fn prob_row(r: ProbNgram, prob: u32, ngram: Seq<char>) -> bool {
    &&& r.prob == prob
    &&& r.ngram.ngram@ == ngram
}

/// The record holds exactly this probability bit pattern, token sequence and
/// back-off bit pattern.
pub open spec fn prob_backoff_row(
    r: ProbBackoffNgram,
    log_prob: u32,
    ngram: Seq<char>,
    backoff: u32,
) -> bool {
    &&& r.prob_backoff.log_prob == log_prob
    &&& r.prob_backoff.backoff == backoff
    &&& r.ngram.ngram@ == ngram
}

/// Builds a maximum-order record from its two fields.
fn pn(prob: u32, ngram: &str) -> (r: ProbNgram)
    ensures
        prob_row(r, prob, ngram@),
{
    ProbNgram { prob, ngram: NGram { ngram: ngram.to_owned() } }
}

/// Builds a general-order record from its three fields.
fn pbn(log_prob: u32, ngram: &str, backoff: u32) -> (r: ProbBackoffNgram)
    ensures
        prob_backoff_row(r, log_prob, ngram@, backoff),
{
    ProbBackoffNgram {
        prob_backoff: ProbBackoff { log_prob, backoff },
        ngram: NGram { ngram: ngram.to_owned() },
    }
}

/// The expected order-three records of the reference model.
pub fn get_trigrams() -> (r: Vec<ProbNgram>)
    ensures
        r@.len() == 12,
        prob_row(r@[0], 0xbe5ffcff, "a a </s>"@),
        prob_row(r@[1], 0xbddc500e, "you remember i"@),
        prob_row(r@[2], 0xbe42561a, "<s> i have"@),
        prob_row(r@[3], 0xbe354a57, "remember i a"@),
        prob_row(r@[4], 0xbdd16c70, "i have a"@),
        prob_row(r@[5], 0xbe520e84, "i a a"@),
        prob_row(r@[6], 0xbe5ffcff, "have a good"@),
        prob_row(r@[7], 0xbde75639, "a good deal"@),
        prob_row(r@[8], 0xbde75639, "good deal of"@),
        prob_row(r@[9], 0xbde75639, "deal of will"@),
        prob_row(r@[10], 0xbde75639, "of will you"@),
        prob_row(r@[11], 0xbde75639, "will you remember"@),
{
    let mut v: Vec<ProbNgram> = Vec::new();
    v.push(pn(0xbe5ffcff, "a a </s>"));  // -0.21873854
    v.push(pn(0xbddc500e, "you remember i"));  // -0.10757457
    v.push(pn(0xbe42561a, "<s> i have"));  // -0.18978158
    v.push(pn(0xbe354a57, "remember i a"));  // -0.1770414
    v.push(pn(0xbdd16c70, "i have a"));  // -0.10225761
    v.push(pn(0xbe520e84, "i a a"));  // -0.2051335
    v.push(pn(0xbe5ffcff, "have a good"));  // -0.21873854
    v.push(pn(0xbde75639, "a good deal"));  // -0.112957425
    v.push(pn(0xbde75639, "good deal of"));  // -0.112957425
    v.push(pn(0xbde75639, "deal of will"));  // -0.112957425
    v.push(pn(0xbde75639, "of will you"));  // -0.112957425
    v.push(pn(0xbde75639, "will you remember"));  // -0.112957425
    v
}

/// The expected order-two records of the reference model.
pub fn get_bigrams() -> (r: Vec<ProbBackoffNgram>)
    ensures
        r@.len() == 13,
        prob_backoff_row(r@[0], 0xbf2e3e0c, "a </s>"@, 0x80000000),
        prob_backoff_row(r@[1], 0xbe8074c9, "<s> i"@, 0xbe9a209b),
        prob_backoff_row(r@[2], 0xbe8074c9, "remember i"@, 0xbe9a209b),
        prob_backoff_row(r@[3], 0xbf08e0c3, "i have"@, 0xbe9a209b),
        prob_backoff_row(r@[4], 0xbef63d02, "i a"@, 0xbe9a209b),
        prob_backoff_row(r@[5], 0xbe71ed99, "have a"@, 0xbe9a209b),
        prob_backoff_row(r@[6], 0xbf1b6e46, "a a"@, 0xbe9a209b),
        prob_backoff_row(r@[7], 0xbf2e3e0c, "a good"@, 0xbe9a209b),
        prob_backoff_row(r@[8], 0xbe8835a7, "good deal"@, 0xbe9a209b),
        prob_backoff_row(r@[9], 0xbe8835a7, "deal of"@, 0xbe9a209b),
        prob_backoff_row(r@[10], 0xbe8835a7, "of will"@, 0xbe9a209b),
        prob_backoff_row(r@[11], 0xbe8835a7, "will you"@, 0xbe9a209b),
        prob_backoff_row(r@[12], 0xbe8835a7, "you remember"@, 0xbe9a209b),
{
    let mut v: Vec<ProbBackoffNgram> = Vec::new();
    v.push(pbn(0xbf2e3e0c, "a </s>", 0x80000000));  // -0.68063426, -0.0
    v.push(pbn(0xbe8074c9, "<s> i", 0xbe9a209b));  // -0.250891, -0.30103
    v.push(pbn(0xbe8074c9, "remember i", 0xbe9a209b));  // -0.250891, -0.30103
    v.push(pbn(0xbf08e0c3, "i have", 0xbe9a209b));  // -0.5346796, -0.30103
    v.push(pbn(0xbef63d02, "i a", 0xbe9a209b));  // -0.4809342, -0.30103
    v.push(pbn(0xbe71ed99, "have a", 0xbe9a209b));  // -0.23625793, -0.30103
    v.push(pbn(0xbf1b6e46, "a a", 0xbe9a209b));  // -0.6071514, -0.30103
    v.push(pbn(0xbf2e3e0c, "a good", 0xbe9a209b));  // -0.68063426, -0.30103
    v.push(pbn(0xbe8835a7, "good deal", 0xbe9a209b));  // -0.26603433, -0.30103
    v.push(pbn(0xbe8835a7, "deal of", 0xbe9a209b));  // -0.26603433, -0.30103
    v.push(pbn(0xbe8835a7, "of will", 0xbe9a209b));  // -0.26603433, -0.30103
    v.push(pbn(0xbe8835a7, "will you", 0xbe9a209b));  // -0.26603433, -0.30103
    v.push(pbn(0xbe8835a7, "you remember", 0xbe9a209b));  // -0.26603433, -0.30103
    v
}

/// The expected order-one records of the reference model.
pub fn get_unigrams() -> (r: Vec<ProbBackoffNgram>)
    ensures
        r@.len() == 12,
        prob_backoff_row(r@[0], 0xbfabd482, "<unk>"@, 0x80000000),
        prob_backoff_row(r@[1], 0x80000000, "<s>"@, 0xbe9a209b),
        prob_backoff_row(r@[2], 0xbf89bf71, "</s>"@, 0x80000000),
        prob_backoff_row(r@[3], 0xbf698c5c, "i"@, 0xbe9a209b),
        prob_backoff_row(r@[4], 0xbf89bf71, "have"@, 0xbe9a209b),
        prob_backoff_row(r@[5], 0xbf4b29e8, "a"@, 0xbe9a209b),
        prob_backoff_row(r@[6], 0xbf89bf71, "good"@, 0xbe9a209b),
        prob_backoff_row(r@[7], 0xbf89bf71, "deal"@, 0xbe9a209b),
        prob_backoff_row(r@[8], 0xbf89bf71, "of"@, 0xbe9a209b),
        prob_backoff_row(r@[9], 0xbf89bf71, "will"@, 0xbe9a209b),
        prob_backoff_row(r@[10], 0xbf89bf71, "you"@, 0xbe9a209b),
        prob_backoff_row(r@[11], 0xbf89bf71, "remember"@, 0xbe9a209b),
{
    let mut v: Vec<ProbBackoffNgram> = Vec::new();
    v.push(pbn(0xbfabd482, "<unk>", 0x80000000));  // -1.3424227, -0.0
    v.push(pbn(0x80000000, "<s>", 0xbe9a209b));  // -0.0, -0.30103
    v.push(pbn(0xbf89bf71, "</s>", 0x80000000));  // -1.0761548, -0.0
    v.push(pbn(0xbf698c5c, "i", 0xbe9a209b));  // -0.91229796, -0.30103
    v.push(pbn(0xbf89bf71, "have", 0xbe9a209b));  // -1.0761548, -0.30103
    v.push(pbn(0xbf4b29e8, "a", 0xbe9a209b));  // -0.7936082, -0.30103
    v.push(pbn(0xbf89bf71, "good", 0xbe9a209b));  // -1.0761548, -0.30103
    v.push(pbn(0xbf89bf71, "deal", 0xbe9a209b));  // -1.0761548, -0.30103
    v.push(pbn(0xbf89bf71, "of", 0xbe9a209b));  // -1.0761548, -0.30103
    v.push(pbn(0xbf89bf71, "will", 0xbe9a209b));  // -1.0761548, -0.30103
    v.push(pbn(0xbf89bf71, "you", 0xbe9a209b));  // -1.0761548, -0.30103
    v.push(pbn(0xbf89bf71, "remember", 0xbe9a209b));  // -1.0761548, -0.30103
    v
}

} // verus!
