//! Markup features, producer fingerprints, and the value and redundancy scores.
//!
//! Scores are kept in tenths of a point: 40 stands for 4.0, and both scores lie in 0..=100.
use vstd::prelude::*;
use crate::budget::{PerformanceError, PerformanceMonitor};
use crate::fraction::Fraction;
use crate::similarity::value_or_timeout;
use crate::text::{contains_any, contains_any_str, contains_seq, contains_str, occurs_at, occurs_at_exec, views_of, chars_of};

verus! {

/// Structural and stylistic signals found in lower-cased HTML.
#[derive(Debug, Clone, Copy, PartialEq, Eq, Structural)]
pub struct HtmlFeatures {
    /// Embedded media: images, video, audio, frames, canvases, vector graphics.
    pub has_rich_content: bool,
    /// Structural markup: tables, lists, navigation, sections, articles.
    pub has_complex_structure: bool,
    /// More than two anchor-tag openings.
    pub has_multiple_links: bool,
    /// Inline styling with a property that changes how text looks.
    pub has_meaningful_styling: bool,
}

/// The opening tags of embedded media.
pub open spec fn rich_media_tags() -> Seq<Seq<char>> {
    seq!["<img"@, "<video"@, "<audio"@, "<iframe"@, "<embed"@, "<object"@, "<canvas"@, "<svg"@]
}

/// The opening tags of structural markup.
pub open spec fn structure_tags() -> Seq<Seq<char>> {
    seq!["<table"@, "<ul"@, "<ol"@, "<dl"@, "<nav"@, "<section"@, "<article"@]
}

/// Inline style properties that change how text looks.
pub open spec fn style_properties() -> Seq<Seq<char>> {
    seq!["background-color:"@, "border:"@, "margin:"@, "padding:"@, "color:"@, "font-weight:"@]
}

/// The opening of an anchor tag.
pub open spec fn anchor_opening() -> Seq<char> {
    "<a "@
}

/// The number of positions before `n` at which `pat` occurs in `hay`.
pub open spec fn occurrences_before(hay: Seq<char>, pat: Seq<char>, n: int) -> nat
    decreases n,
{
    if n <= 0 {
        0
    } else {
        occurrences_before(hay, pat, n - 1) + if occurs_at(hay, pat, n - 1) { 1nat } else { 0nat }
    }
}

/// The number of positions at which `pat` occurs in `hay`.
pub open spec fn occurrences(hay: Seq<char>, pat: Seq<char>) -> nat {
    occurrences_before(hay, pat, hay.len() as int)
}

/// The features of lower-cased HTML.
pub open spec fn features_of(h: Seq<char>) -> HtmlFeatures {
    HtmlFeatures {
        has_rich_content: contains_any(h, rich_media_tags()),
        has_complex_structure: contains_any(h, structure_tags()),
        has_multiple_links: occurrences(h, anchor_opening()) > 2,
        has_meaningful_styling: contains_any(h, style_properties()),
    }
}

fn rich_media_tag_list() -> (r: Vec<&'static str>)
    ensures
        views_of(r@) == rich_media_tags(),
{
    let r = vec!["<img", "<video", "<audio", "<iframe", "<embed", "<object", "<canvas", "<svg"];
    assert(views_of(r@) =~= rich_media_tags());
    r
}

fn structure_tag_list() -> (r: Vec<&'static str>)
    ensures
        views_of(r@) == structure_tags(),
{
    let r = vec!["<table", "<ul", "<ol", "<dl", "<nav", "<section", "<article"];
    assert(views_of(r@) =~= structure_tags());
    r
}

fn style_property_list() -> (r: Vec<&'static str>)
    ensures
        views_of(r@) == style_properties(),
{
    let r = vec!["background-color:", "border:", "margin:", "padding:", "color:", "font-weight:"];
    assert(views_of(r@) =~= style_properties());
    r
}

/// The number of positions at which `pat` occurs in `hay`.
pub fn count_occurrences(hay: &Vec<char>, pat: &Vec<char>) -> (r: usize)
    ensures
        r == occurrences(hay@, pat@),
{
    let mut n: usize = 0;
    let mut i: usize = 0;
    while i < hay.len()
        invariant
            i <= hay.len(),
            n <= i,
            n == occurrences_before(hay@, pat@, i as int),
        decreases hay.len() - i,
    {
        if occurs_at_exec(hay, pat, i) {
            n += 1;
        }
        i += 1;
    }
    n
}

/// The features of lower-cased HTML, polling the budget between groups of tags.
pub fn features_in(h: &Vec<char>, monitor: &PerformanceMonitor) -> (r: Result<
    HtmlFeatures,
    PerformanceError,
>)
    ensures
        value_or_timeout(r, features_of(h@), monitor),
{
    monitor.check_timeout()?;
    let has_rich_content = contains_any_str(h, &rich_media_tag_list());
    monitor.check_timeout()?;
    let has_complex_structure = contains_any_str(h, &structure_tag_list());
    monitor.check_timeout()?;
    let anchor = chars_of("<a ");
    let has_multiple_links = count_occurrences(h, &anchor) > 2;
    let has_meaningful_styling = contains_any_str(h, &style_property_list());
    Ok(HtmlFeatures {
        has_rich_content,
        has_complex_structure,
        has_multiple_links,
        has_meaningful_styling,
    })
}

/// The features of lower-cased HTML, polling the budget between groups of tags.
pub fn analyze_html_features_optimized(html_lower: &str, monitor: &PerformanceMonitor) -> (r:
    Result<HtmlFeatures, PerformanceError>)
    ensures
        value_or_timeout(r, features_of(html_lower@), monitor),
{
    let h = chars_of(html_lower);
    features_in(&h, monitor)
}

/// The application family that produced a piece of HTML, as told by its markup.
#[derive(Debug, Clone, Copy, PartialEq, Eq, Structural)]
pub enum ProducerKind {
    /// A chat assistant's web interface.
    ChatAssistant,
    /// An office suite.
    OfficeSuite,
    /// An editor of the native desktop ecosystem.
    NativeEcosystemEditor,
    /// Some other producer.
    Unknown,
}

/// The markup fingerprints of each producer family.
pub open spec fn signatures(kind: ProducerKind) -> Seq<Seq<char>> {
    match kind {
        ProducerKind::ChatAssistant => seq![
            "data-testid=\"conversation-turn"@,
            "markdown prose w-full"@,
        ],
        ProducerKind::OfficeSuite => seq!["mso-"@, "xmlns:o="@, "<!--[if"@],
        ProducerKind::NativeEcosystemEditor => seq!["apple-converted-space"@, "webkit-"@],
        ProducerKind::Unknown => seq![],
    }
}

/// The first family, in the order chat assistant, office suite, native editor, whose
/// fingerprint occurs in lower-cased HTML.
pub open spec fn detect_producer(h: Seq<char>) -> Option<ProducerKind> {
    if contains_any(h, signatures(ProducerKind::ChatAssistant)) {
        Some(ProducerKind::ChatAssistant)
    } else if contains_any(h, signatures(ProducerKind::OfficeSuite)) {
        Some(ProducerKind::OfficeSuite)
    } else if contains_any(h, signatures(ProducerKind::NativeEcosystemEditor)) {
        Some(ProducerKind::NativeEcosystemEditor)
    } else {
        None
    }
}

/// The name under which a producer family is reported.
pub open spec fn producer_name(kind: ProducerKind) -> Seq<char> {
    match kind {
        ProducerKind::ChatAssistant => "ChatGPT"@,
        ProducerKind::OfficeSuite => "MicrosoftOffice"@,
        ProducerKind::NativeEcosystemEditor => "AppleEcosystem"@,
        ProducerKind::Unknown => "Unknown"@,
    }
}

impl ProducerKind {
    /// The name under which this family is reported.
    pub fn name(&self) -> (r: &'static str)
        ensures
            r@ == producer_name(*self),
    {
        match self {
            ProducerKind::ChatAssistant => "ChatGPT",
            ProducerKind::OfficeSuite => "MicrosoftOffice",
            ProducerKind::NativeEcosystemEditor => "AppleEcosystem",
            ProducerKind::Unknown => "Unknown",
        }
    }

    /// The fingerprints of this family.
    pub fn signature_list(&self) -> (r: Vec<&'static str>)
        ensures
            views_of(r@) == signatures(*self),
    {
        let r = match self {
            ProducerKind::ChatAssistant => vec!["data-testid=\"conversation-turn", "markdown prose w-full"],
            ProducerKind::OfficeSuite => vec!["mso-", "xmlns:o=", "<!--[if"],
            ProducerKind::NativeEcosystemEditor => vec!["apple-converted-space", "webkit-"],
            ProducerKind::Unknown => Vec::new(),
        };
        assert(views_of(r@) =~= signatures(*self));
        r
    }
}

/// The producer family of lower-cased HTML, polling the budget between families.
pub fn detect_producer_in(h: &Vec<char>, monitor: &PerformanceMonitor) -> (r: Result<
    Option<ProducerKind>,
    PerformanceError,
>)
    ensures
        value_or_timeout(r, detect_producer(h@), monitor),
{
    if contains_any_str(h, &ProducerKind::ChatAssistant.signature_list()) {
        return Ok(Some(ProducerKind::ChatAssistant));
    }
    monitor.check_timeout()?;
    if contains_any_str(h, &ProducerKind::OfficeSuite.signature_list()) {
        return Ok(Some(ProducerKind::OfficeSuite));
    }
    monitor.check_timeout()?;
    if contains_any_str(h, &ProducerKind::NativeEcosystemEditor.signature_list()) {
        return Ok(Some(ProducerKind::NativeEcosystemEditor));
    }
    Ok(None)
}

} // verus!

verus! {

/// The highest score, ten points.
pub const SCORE_CAP: u32 = 100;

/// The smaller of a score and the cap.
pub open spec fn capped(x: int) -> u32 {
    if x > SCORE_CAP { SCORE_CAP } else { x as u32 }
}

/// The value score: 4.0 for rich content, 3.0 for complex structure, 2.0 for multiple links,
/// 2.0 for meaningful styling, and 1.0 when similarity is below 0.7; at most 10.0.
pub open spec fn value_score(f: HtmlFeatures, similarity: Fraction) -> u32 {
    capped(
        (if f.has_rich_content { 40int } else { 0int }) + (if f.has_complex_structure { 30int } else { 0int })
            + (if f.has_multiple_links { 20int } else { 0int }) + (if f.has_meaningful_styling { 20int } else { 0int })
            + (if similarity.falls_below(7, 10) { 10int } else { 0int }),
    )
}

/// Literal markers of redundant markup with their weights.
pub open spec fn redundancy_indicators() -> Seq<(Seq<char>, u32)> {
    seq![
        ("mso-"@, 30u32),
        ("microsoft"@, 25u32),
        ("office"@, 25u32),
        ("xmlns:o="@, 35u32),
        ("<!--[if"@, 35u32),
        ("apple-converted-space"@, 25u32),
        ("webkit-"@, 20u32),
        ("chatgpt"@, 30u32),
        ("conversation-turn"@, 40u32),
        ("data-testid=\"conversation"@, 40u32),
    ]
}

/// The weights of the first `n` indicators of `table` that occur in `h`.
pub open spec fn indicator_weight(h: Seq<char>, table: Seq<(Seq<char>, u32)>, n: int) -> nat
    decreases n,
{
    if n <= 0 {
        0
    } else {
        indicator_weight(h, table, n - 1) + if contains_seq(h, table[n - 1].0) {
            table[n - 1].1 as nat
        } else {
            0nat
        }
    }
}

/// The redundancy bonus that the scoring helper gives a producer family.
pub open spec fn helper_bonus(p: Option<ProducerKind>) -> u32 {
    match p {
        Some(ProducerKind::ChatAssistant) => 20,
        Some(ProducerKind::OfficeSuite) => 15,
        Some(ProducerKind::NativeEcosystemEditor) => 10,
        Some(ProducerKind::Unknown) => 5,
        None => 0,
    }
}

/// The redundancy bonus that the analysis adds once more for a producer family.
pub open spec fn analysis_bonus(p: Option<ProducerKind>) -> u32 {
    match p {
        Some(ProducerKind::ChatAssistant) => 30,
        Some(ProducerKind::OfficeSuite) => 25,
        Some(ProducerKind::NativeEcosystemEditor) => 15,
        Some(ProducerKind::Unknown) => 10,
        None => 0,
    }
}

/// The indicator weights of `h` plus the helper's producer bonus, at most 10.0.
pub open spec fn base_redundancy(h: Seq<char>, p: Option<ProducerKind>) -> u32 {
    capped(
        indicator_weight(h, redundancy_indicators(), redundancy_indicators().len() as int)
            + helper_bonus(p),
    )
}

/// The redundancy score: the base redundancy, the producer bonus once more, 2.0 when
/// similarity exceeds 0.8 and a further 3.0 when it exceeds 0.95; at most 10.0.
pub open spec fn redundancy_score(h: Seq<char>, p: Option<ProducerKind>, similarity: Fraction) -> u32 {
    capped(
        base_redundancy(h, p) + analysis_bonus(p) + (if similarity.exceeds(8, 10) { 20int } else { 0int })
            + (if similarity.exceeds(95, 100) { 30int } else { 0int }),
    )
}

fn indicator_table() -> (r: Vec<(&'static str, u32)>)
    ensures
        r@.len() == redundancy_indicators().len(),
        forall|i: int| 0 <= i < r@.len() ==> r@[i].0@ == redundancy_indicators()[i].0
            && r@[i].1 == redundancy_indicators()[i].1,
{
    let r = vec![
        ("mso-", 30u32),
        ("microsoft", 25u32),
        ("office", 25u32),
        ("xmlns:o=", 35u32),
        ("<!--[if", 35u32),
        ("apple-converted-space", 25u32),
        ("webkit-", 20u32),
        ("chatgpt", 30u32),
        ("conversation-turn", 40u32),
        ("data-testid=\"conversation", 40u32),
    ];
    r
}

/// The value score of a set of features at a given similarity.
pub fn value_score_of(f: &HtmlFeatures, similarity: &Fraction) -> (r: u32)
    ensures
        r == value_score(*f, *similarity),
{
    let mut v: u32 = 0;
    if f.has_rich_content {
        v += 40;
    }
    if f.has_complex_structure {
        v += 30;
    }
    if f.has_multiple_links {
        v += 20;
    }
    if f.has_meaningful_styling {
        v += 20;
    }
    if similarity.is_below(7, 10) {
        v += 10;
    }
    if v > SCORE_CAP {
        v = SCORE_CAP;
    }
    v
}

/// The indicator weights of lower-cased HTML plus the producer bonus, at most 10.0, polling
/// the budget after each indicator.
pub fn calculate_redundancy_score_optimized(
    h: &Vec<char>,
    detected: Option<ProducerKind>,
    monitor: &PerformanceMonitor,
) -> (r: Result<u32, PerformanceError>)
    ensures
        value_or_timeout(r, base_redundancy(h@, detected), monitor),
{
    monitor.check_timeout()?;
    let table = indicator_table();
    let mut sum: u32 = 0;
    let mut i: usize = 0;
    while i < table.len()
        invariant
            i <= table.len(),
            table@.len() == redundancy_indicators().len(),
            forall|k: int| 0 <= k < table@.len() ==> table@[k].0@ == redundancy_indicators()[k].0
                && table@[k].1 == redundancy_indicators()[k].1,
            sum == indicator_weight(h@, redundancy_indicators(), i as int),
            sum <= 40 * i,
        decreases table.len() - i,
    {
        let (pattern, weight) = table[i];
        if contains_str(h, pattern) {
            sum += weight;
        }
        monitor.check_timeout()?;
        i += 1;
    }
    let bonus: u32 = match detected {
        Some(ProducerKind::ChatAssistant) => 20,
        Some(ProducerKind::OfficeSuite) => 15,
        Some(ProducerKind::NativeEcosystemEditor) => 10,
        Some(ProducerKind::Unknown) => 5,
        None => 0,
    };
    let total = sum + bonus;
    Ok(if total > SCORE_CAP { SCORE_CAP } else { total })
}

/// The redundancy score from the base redundancy, the producer and the similarity.
pub fn finish_redundancy(base: u32, detected: Option<ProducerKind>, similarity: &Fraction) -> (r: u32)
    requires
        base <= SCORE_CAP,
    ensures
        r == capped(base + analysis_bonus(detected) + (if similarity.exceeds(8, 10) { 20int } else { 0int })
            + (if similarity.exceeds(95, 100) { 30int } else { 0int })),
{
    let mut total: u32 = base;
    total += match detected {
        Some(ProducerKind::ChatAssistant) => 30,
        Some(ProducerKind::OfficeSuite) => 25,
        Some(ProducerKind::NativeEcosystemEditor) => 15,
        Some(ProducerKind::Unknown) => 10,
        None => 0,
    };
    if similarity.is_above(8, 10) {
        total += 20;
    }
    if similarity.is_above(95, 100) {
        total += 30;
    }
    if total > SCORE_CAP {
        SCORE_CAP
    } else {
        total
    }
}

} // verus!
