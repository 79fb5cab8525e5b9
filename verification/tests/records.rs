use lm_sanity::expectation::get_bigrams;
use lm_sanity::expectation::get_trigrams;
use lm_sanity::expectation::get_unigrams;
use lm_sanity::records::NGram;
use lm_sanity::records::ProbBackoff;
use lm_sanity::records::ProbBackoffNgram;
use lm_sanity::records::ProbNgram;

fn pbn(log_prob: f32, ngram: &str, backoff: f32) -> ProbBackoffNgram {
    ProbBackoffNgram {
        prob_backoff: ProbBackoff {
            log_prob: log_prob.to_bits(),
            backoff: backoff.to_bits(),
        },
        ngram: NGram {
            ngram: ngram.to_string(),
        },
    }
}

fn pn(prob: f32, ngram: &str) -> ProbNgram {
    ProbNgram {
        prob: prob.to_bits(),
        ngram: NGram {
            ngram: ngram.to_string(),
        },
    }
}

#[test]
fn test_record_equality() {
    let a = pbn(-0.5346796, "i have", -0.30103);
    let b = pbn(-0.5346796, "i have", -0.30103);
    assert_eq!(a, b);
    let other_prob = pbn(-0.4809342, "i have", -0.30103);
    let other_ngram = pbn(-0.5346796, "i a", -0.30103);
    let other_backoff = pbn(-0.5346796, "i have", -0.0);
    assert_ne!(a, other_prob);
    assert_ne!(a, other_ngram);
    assert_ne!(a, other_backoff);
}

#[test]
fn test_record_fixture_scenario() {
    let built = pbn(-0.21873854, "a a </s>", -0.0);
    let fixture = pbn(-0.21873854, "a a </s>", -0.0);
    assert_eq!(built, fixture);
    let other = pbn(-0.21873854, "a a </s>", -0.30103);
    assert_ne!(built, other);
}

#[test]
fn test_max_order_record_equality() {
    let a = pn(-0.10225761, "i have a");
    assert_eq!(a, pn(-0.10225761, "i have a"));
    assert_ne!(a, pn(-0.10225761, "i have"));
    assert_ne!(a, pn(-0.10757457, "i have a"));
}

#[test]
fn test_trigrams_expected() {
    let expected = vec![
        pn(-0.21873854, "a a </s>"),
        pn(-0.10757457, "you remember i"),
        pn(-0.18978158, "<s> i have"),
        pn(-0.1770414, "remember i a"),
        pn(-0.10225761, "i have a"),
        pn(-0.2051335, "i a a"),
        pn(-0.21873854, "have a good"),
        pn(-0.112957425, "a good deal"),
        pn(-0.112957425, "good deal of"),
        pn(-0.112957425, "deal of will"),
        pn(-0.112957425, "of will you"),
        pn(-0.112957425, "will you remember"),
    ];
    assert_eq!(get_trigrams(), expected);
}

#[test]
fn test_bigrams_expected() {
    let expected = vec![
        pbn(-0.68063426, "a </s>", -0.0),
        pbn(-0.250891, "<s> i", -0.30103),
        pbn(-0.250891, "remember i", -0.30103),
        pbn(-0.5346796, "i have", -0.30103),
        pbn(-0.4809342, "i a", -0.30103),
        pbn(-0.23625793, "have a", -0.30103),
        pbn(-0.6071514, "a a", -0.30103),
        pbn(-0.68063426, "a good", -0.30103),
        pbn(-0.26603433, "good deal", -0.30103),
        pbn(-0.26603433, "deal of", -0.30103),
        pbn(-0.26603433, "of will", -0.30103),
        pbn(-0.26603433, "will you", -0.30103),
        pbn(-0.26603433, "you remember", -0.30103),
    ];
    assert_eq!(get_bigrams(), expected);
}

#[test]
fn test_unigrams_expected() {
    let expected = vec![
        pbn(-1.3424227, "<unk>", -0.0),
        pbn(-0.0, "<s>", -0.30103),
        pbn(-1.0761548, "</s>", -0.0),
        pbn(-0.91229796, "i", -0.30103),
        pbn(-1.0761548, "have", -0.30103),
        pbn(-0.7936082, "a", -0.30103),
        pbn(-1.0761548, "good", -0.30103),
        pbn(-1.0761548, "deal", -0.30103),
        pbn(-1.0761548, "of", -0.30103),
        pbn(-1.0761548, "will", -0.30103),
        pbn(-1.0761548, "you", -0.30103),
        pbn(-1.0761548, "remember", -0.30103),
    ];
    assert_eq!(get_unigrams(), expected);
}

#[test]
fn test_negative_zero_backoff_kept_distinct() {
    // The numeric fields are raw bit patterns: -0.0 and 0.0 are different
    // records even though they compare equal as floats.
    let neg = pbn(-0.0, "a </s>", -0.0);
    let pos = pbn(-0.0, "a </s>", 0.0);
    assert_ne!(neg, pos);
}
