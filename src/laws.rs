//! Properties that hold of every input, proved from the contracts of the library.
use vstd::prelude::*;
use crate::analyzer::{admissible_verdict, analysis_of, fallback_decision, outcome_decision, oversized};
use crate::budget::{AnalysisConfig, PerformanceError};
use crate::decision::{HtmlAnalysisResult, prefers_html};
use crate::fingerprint::{fingerprint_of, hex_of};
use crate::fraction::Fraction;
use crate::decision::DetectedProducer;
use crate::scoring::{
    HtmlFeatures, ProducerKind, base_redundancy, detect_producer, indicator_weight,
    redundancy_indicators, redundancy_score, rich_media_tags, signatures, structure_tags,
    value_score,
};
use crate::similarity::{similarity_of, stripped_text};
use crate::text::{contains_any, contains_seq, lower_of, occurs_at, words};

verus! {

/// The decision policy is a function of the analysis alone: equal analyses always get the
/// same verdict.
pub proof fn lemma_policy_is_deterministic(a: HtmlAnalysisResult, b: HtmlAnalysisResult)
    requires
        a == b,
    ensures
        prefers_html(a) == prefers_html(b),
{
}

/// Scoring is a function of the similarity, the features and the producer alone: equal inputs
/// always get equal value and redundancy scores.
pub proof fn lemma_scoring_is_deterministic(
    h1: Seq<char>,
    h2: Seq<char>,
    f1: HtmlFeatures,
    f2: HtmlFeatures,
    p1: Option<ProducerKind>,
    p2: Option<ProducerKind>,
    s1: Fraction,
    s2: Fraction,
)
    requires
        h1 == h2,
        f1 == f2,
        p1 == p2,
        s1 == s2,
    ensures
        value_score(f1, s1) == value_score(f2, s2),
        redundancy_score(h1, p1, s1) == redundancy_score(h2, p2, s2),
{
}

/// The analysis, and so the standard decision, is a function of the payloads and the
/// configuration alone.
pub proof fn lemma_analysis_is_deterministic(
    h1: Seq<char>,
    h2: Seq<char>,
    t1: Seq<char>,
    t2: Seq<char>,
    detection: bool,
)
    requires
        h1 == h2,
        t1 == t2,
    ensures
        analysis_of(h1, t1, detection) == analysis_of(h2, t2, detection),
        prefers_html(analysis_of(h1, t1, detection)) == prefers_html(analysis_of(h2, t2, detection)),
{
}

/// Two hexadecimal digits stand for each byte.
pub proof fn lemma_hex_len(data: Seq<u8>)
    ensures
        hex_of(data).len() == 2 * data.len(),
    decreases data.len(),
{
    if data.len() > 0 {
        lemma_hex_len(data.drop_last());
    }
}

/// A fingerprint depends on the content alone: the same content always gets the same
/// fingerprint.
pub proof fn lemma_fingerprint_is_stable(x: Seq<char>, y: Seq<char>)
    requires
        x == y,
    ensures
        fingerprint_of(x) == fingerprint_of(y),
{
}

/// Whenever the budgeted analysis stops on a timeout, the decision is the fallback's, whatever
/// the full analysis would have said.
pub proof fn lemma_timeout_selects_fallback(html: Seq<char>, timeout_ms: u64)
    ensures
        outcome_decision(
            Err::<bool, PerformanceError>(PerformanceError::AnalysisTimeout { timeout_ms }),
            html,
        ) == fallback_decision(html),
{
}

/// Whenever the budgeted analysis stops on its budget, by time or by size, the decision is the
/// fallback's.
pub proof fn lemma_budget_failure_selects_fallback(outcome: Result<bool, PerformanceError>, html: Seq<char>)
    requires
        outcome is Err,
        !(outcome->Err_0 is MonitoringError),
    ensures
        outcome_decision(outcome, html) == fallback_decision(html),
{
}

/// A payload over the size limit never reaches the standard path: every verdict that
/// `should_prefer_html` may give is the fallback's.
pub proof fn lemma_oversized_selects_fallback(config: AnalysisConfig, html: &str, text: &str, r: bool)
    requires
        oversized(config, html, text),
        admissible_verdict(config, html, text, r),
    ensures
        r == fallback_decision(html@),
{
}

/// An empty HTML or an empty text payload has similarity zero.
pub proof fn lemma_empty_payload_similarity(h: Seq<char>, t: Seq<char>)
    requires
        h.len() == 0 || t.len() == 0,
    ensures
        similarity_of(h, t) == Fraction::zero(),
{
    if h.len() == 0 {
        assert(h.take(0) =~= Seq::<char>::empty());
        assert(stripped_text(h) =~= Seq::<char>::empty());
        assert(words(stripped_text(h)) =~= Seq::<Seq<char>>::empty());
    }
    if t.len() == 0 {
        assert(words(t) =~= Seq::<Seq<char>>::empty());
    }
}

} // verus!

verus! {

/// The chat-assistant fingerprint that chat interfaces leave on every turn.
pub open spec fn chat_turn_marker() -> Seq<char> {
    "data-testid=\"conversation-turn"@
}

/// Lower-cased HTML with a chat-assistant turn marker and no media or structural tags is
/// analysed as a chat assistant's at confidence 0.8, with redundancy at the cap of 10.0 and
/// neither rich content nor complex structure; when its similarity to the text exceeds 0.8,
/// the policy keeps text.
pub proof fn lemma_chat_marker_keeps_text(h: Seq<char>, t: Seq<char>)
    requires
        lower_of(h) == h,
        contains_seq(h, chat_turn_marker()),
        !contains_any(h, rich_media_tags()),
        !contains_any(h, structure_tags()),
    ensures
        analysis_of(h, t, true).detected == Some(
            DetectedProducer { kind: ProducerKind::ChatAssistant, confidence_percent: 80 },
        ),
        analysis_of(h, t, true).redundancy_score == 100,
        !analysis_of(h, t, true).features.has_rich_content,
        !analysis_of(h, t, true).features.has_complex_structure,
        similarity_of(h, t).exceeds(8, 10) ==> !prefers_html(analysis_of(h, t, true)),
{
    let m = chat_turn_marker();
    let i = choose|i: int| occurs_at(h, m, i);
    reveal_strlit("data-testid=\"conversation-turn");
    reveal_strlit("conversation-turn");
    reveal_strlit("data-testid=\"conversation");
    assert(m.len() == 30);
    let tail = "conversation-turn"@;
    let head = "data-testid=\"conversation"@;
    assert(h.subrange(i + 13, i + 30) =~= tail) by {
        assert forall|k: int| 0 <= k < 17 implies h.subrange(i + 13, i + 30)[k] == tail[k] by {
            assert(h.subrange(i, i + 30)[13 + k] == m[13 + k]);
        }
    }
    assert(occurs_at(h, tail, i + 13));
    assert(h.subrange(i, i + 25) =~= head) by {
        assert forall|k: int| 0 <= k < 25 implies h.subrange(i, i + 25)[k] == head[k] by {
            assert(h.subrange(i, i + 30)[k] == m[k]);
        }
    }
    assert(occurs_at(h, head, i));
    let sigs = signatures(ProducerKind::ChatAssistant);
    assert(sigs[0] == m);
    assert(contains_any(h, sigs));
    assert(detect_producer(h) == Some(ProducerKind::ChatAssistant));
    let table = redundancy_indicators();
    assert(table[9].0 == head && table[9].1 == 40);
    assert(table[8].0 == tail && table[8].1 == 40);
    assert(contains_seq(h, table[9].0));
    assert(contains_seq(h, table[8].0));
    assert(indicator_weight(h, table, 10) == indicator_weight(h, table, 9) + 40);
    assert(indicator_weight(h, table, 9) == indicator_weight(h, table, 8) + 40);
    assert(indicator_weight(h, table, 10) >= 80);
    assert(base_redundancy(h, Some(ProducerKind::ChatAssistant)) == 100);
}

} // verus!
