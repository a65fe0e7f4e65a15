//! Regex rewrite rules and the predefined lists of them.
//!
//! Building a [`FilterRule`] compiles its regular expression, so the rule
//! lists below are best built once and reused.

use std::borrow::Cow;

use regex::Regex;
use vstd::prelude::*;

verus! {

/// Declares `regex::Regex`, a compiled regular expression, so that a rule can
/// hold one; its contents stay opaque.
#[verifier::external_type_specification]
#[verifier::external_body]
pub struct ExRegex(regex::Regex);

/// Declares `regex::Error`, what `Regex::new` returns for a pattern that it
/// refuses; it is carried, never read.
#[verifier::external_type_specification]
#[verifier::external_body]
pub struct ExRegexError(regex::Error);

/// Relies on the `Clone` that `regex::Regex` derives: the copy shares the
/// compiled program and so matches as the regex it came from. Nothing about it
/// is stated here; it lets a rule be cloned.
pub assume_specification[ <regex::Regex as std::clone::Clone>::clone ](re: &regex::Regex) -> regex::Regex;

/// Whether `regex::Regex::new` accepts `pattern`: the pattern is valid
/// regex syntax and compiles within the default size limit.
pub uninterp spec fn pattern_compiles(pattern: Seq<char>) -> bool;

/// What `Regex::replace` gives for the regex that `Regex::new` compiled from
/// `pattern`, on `text` and the template `replacement`: `None` when the
/// pattern has no match in `text` (the text comes back borrowed), otherwise
/// `text` with its first match replaced by the expanded template.
pub uninterp spec fn regex_replace_first(
    pattern: Seq<char>,
    text: Seq<char>,
    replacement: Seq<char>,
) -> Option<Seq<char>>;

/// Relies on `regex::Regex::new`: it returns `Ok` exactly for the patterns
/// that it accepts.
#[verifier::external_body]
fn compile(pattern: &str) -> (r: Result<Regex, regex::Error>)
    ensures
        r is Ok <==> pattern_compiles(pattern@),
{
    Regex::new(pattern)
}

/// Relies on `regex::Regex::replace`: it replaces the first match of the
/// rule's regex in `text` by the expanded template and returns the text
/// borrowed, unchanged, exactly when there is no match. The rule's regex is
/// the one compiled from its pattern (see [`FilterRule`]).
#[verifier::external_body]
fn replace_first(rule: &FilterRule, text: &str) -> (r: Option<String>)
    ensures
        r is None <==> regex_replace_first(rule@.pattern, text@, rule@.replacement) is None,
        r matches Some(s) ==> regex_replace_first(rule@.pattern, text@, rule@.replacement)
            == Some(s@),
{
    match rule.regex.replace(text, rule.replacement.as_str()) {
        Cow::Borrowed(_) => None,
        Cow::Owned(s) => Some(s),
    }
}

/// Whether `rule` finds a match in `text`.
pub open spec fn matches_rule(rule: RuleView, text: Seq<char>) -> bool {
    regex_replace_first(rule.pattern, text, rule.replacement) is Some
}

/// `text` after one application of `rule`: the first match of its pattern
/// replaced, or `text` itself when there is no match.
pub open spec fn rewritten(rule: RuleView, text: Seq<char>) -> Seq<char> {
    match regex_replace_first(rule.pattern, text, rule.replacement) {
        Some(t) => t,
        None => text,
    }
}

/// What one application of a rule did to a text.
#[derive(Debug, Clone, PartialEq, Eq)]
pub enum Applied {
    /// The pattern matched; the text after the replacement.
    Changed(String),
    /// The pattern found no match; the text stays as it was.
    Unchanged,
}

/// The error of building a rule from a pattern that does not compile.
#[derive(Debug, Clone, PartialEq, Eq)]
pub enum FilterError {
    /// The offending pattern.
    InvalidPattern(String),
}

/// A regex rewrite rule: a pattern and the template that replaces its
/// first match.
///
/// `regex` is always the regex that `Regex::new` compiled from `pattern`:
/// [`FilterRule::new`] is the only way to build a rule.
#[derive(Debug, Clone)]
pub struct FilterRule {
    regex: Regex,
    pattern: String,
    replacement: String,
}

/// The mathematical value of a rule: its pattern and its replacement
/// template.
pub struct RuleView {
    pub pattern: Seq<char>,
    pub replacement: Seq<char>,
}

impl View for FilterRule {
    type V = RuleView;

    closed spec fn view(&self) -> RuleView {
        RuleView { pattern: self.pattern@, replacement: self.replacement@ }
    }
}

impl FilterRule {
    /// Builds a rule from a pattern in the syntax of the `regex` crate and a
    /// replacement template, in which `$1`, `$2`, ... stand for the
    /// pattern's capture groups. Fails with [`FilterError::InvalidPattern`]
    /// when the pattern does not compile.
    pub fn new(pattern: &str, replacement: &str) -> (r: Result<FilterRule, FilterError>)
        ensures
            r is Ok <==> pattern_compiles(pattern@),
            r matches Ok(rule) ==> rule@ == (RuleView {
                pattern: pattern@,
                replacement: replacement@,
            }),
            r matches Err(FilterError::InvalidPattern(p)) ==> p@ == pattern@,
    {
        match compile(pattern) {
            Ok(regex) => Ok(
                FilterRule { regex, pattern: pattern.to_string(), replacement: replacement.to_string() },
            ),
            Err(_) => Err(FilterError::InvalidPattern(pattern.to_string())),
        }
    }

    /// Applies the rule once: replaces the first match of its pattern in
    /// `text`, expanding the capture groups named in the template. Reports
    /// [`Applied::Unchanged`] when the pattern has no match, so that the
    /// caller can keep its text without copying it.
    pub fn apply(&self, text: &str) -> (r: Applied)
        ensures
            r is Unchanged <==> !matches_rule(self@, text@),
            r matches Applied::Changed(t) ==> t@ == rewritten(self@, text@),
    {
        match replace_first(self, text) {
            Some(t) => Applied::Changed(t),
            None => Applied::Unchanged,
        }
    }
}

/// `r` holds one rule for each of `pairs`, in their order, when every
/// pattern compiles, and otherwise the error of the first that does not.
pub open spec fn built_from(r: Result<Vec<FilterRule>, FilterError>, pairs: Seq<(&str, &str)>) -> bool {
    &&& r is Ok <==> forall|i: int| 0 <= i < pairs.len() ==> pattern_compiles(#[trigger] pairs[i].0@)
    &&& r matches Ok(rules) ==> rules@.len() == pairs.len() && forall|i: int|
        0 <= i < pairs.len() ==> (#[trigger] rules@[i])@ == (RuleView {
            pattern: pairs[i].0@,
            replacement: pairs[i].1@,
        })
    &&& r matches Err(FilterError::InvalidPattern(p)) ==> exists|i: int|
        0 <= i < pairs.len() && p@ == (#[trigger] pairs[i]).0@ && !pattern_compiles(p@)
            && forall|j: int| 0 <= j < i ==> pattern_compiles(#[trigger] pairs[j].0@)
}

/// Builds one rule from each (pattern, replacement) pair, keeping their
/// order. Fails with the first pattern that does not compile.
pub fn build_rules(pairs: &[(&str, &str)]) -> (r: Result<Vec<FilterRule>, FilterError>)
    ensures
        built_from(r, pairs@),
{
    let mut rules: Vec<FilterRule> = Vec::new();
    let mut i: usize = 0;
    while i < pairs.len()
        invariant
            i <= pairs@.len(),
            rules@.len() == i,
            forall|j: int| 0 <= j < i ==> pattern_compiles(#[trigger] pairs@[j].0@),
            forall|j: int|
                0 <= j < i ==> (#[trigger] rules@[j])@ == (RuleView {
                    pattern: pairs@[j].0@,
                    replacement: pairs@[j].1@,
                }),
        decreases pairs@.len() - i,
    {
        let (pattern, replacement) = pairs[i];
        match FilterRule::new(pattern, replacement) {
            Ok(rule) => rules.push(rule),
            Err(e) => return Err(e),
        }
        i = i + 1;
    }
    Ok(rules)
}

/// The (pattern, replacement) pairs of [`youtube_track_filter_rules`].
pub const YOUTUBE_TRACK_PAIRS: [(&'static str, &'static str); 29] = [
    // Trim whitespaces
    (r"^\s+", ""),
    (r"\s+$", ""),
    // **NEW**
    (r"\*+\s?\S+\s?\*+$", ""),
    // [whatever]
    (r"\[[^\]]+\]", ""),
    // (whatever version)
    (r"(?i)\([^)]*version\)$", ""),
    // video extensions
    (r"(?i)\.(avi|wmv|mpg|mpeg|flv)$", ""),
    // (LYRICs VIDEO)
    (r"(?i)\(.*lyrics?\s*(video)?\)", ""),
    // (Official Track Stream)
    (r"(?i)\((of+icial\s*)?(track\s*)?stream\)", ""),
    // (official)? (music)? video
    (r"(?i)\((of+icial\s*)?(music\s*)?video\)", ""),
    // (official)? (music)? audio
    (r"(?i)\((of+icial\s*)?(music\s*)?audio\)", ""),
    // (ALBUM TRACK)
    (r"(?i)(album track\s*)", ""),
    // (Cover Art)
    (r"(?i)(cover art\s*)", ""),
    // (official)
    (r"(?i)\(\s*of+icial\s*\)", ""),
    // (1999)
    (r"(?i)\(\s*[0-9]{4}\s*\)", ""),
    // HD (HQ)
    (r"(HD|HQ)\s*$", ""),
    // video clip officiel or video clip official
    ("(?i)(vid[\u{00E9}e]o)?\\s?clip\\sof+ici[ae]l", ""),
    // offizielles
    (r"(?i)of+iziel+es\s*video", ""),
    // video clip
    ("(?i)vid[\u{00E9}e]o\\s?clip", ""),
    // clip
    (r"(?i)\sclip", ""),
    // Full Album
    (r"(?i)full\s*album", ""),
    // (live)
    (r"(?i)\(live.*?\)$", ""),
    // | something
    (r"(?i)\|.*$", ""),
    // Artist - The new "Track title" featuring someone
    (r#"^(|.*\s)"(.{5,})"(\s.*|)$"#, "$2"),
    // 'Track title'
    (r"^(|.*\s)'(.{5,})'(\s.*|)$", "$2"),
    // (*01/01/1999*)
    (r"(?i)\(.*[0-9]{1,2}/[0-9]{1,2}/[0-9]{2,4}.*\)", ""),
    // Sub Español
    (r"(?i)sub\s*español", ""),
    // (Letra/Lyrics)
    (r"(?i)\s\(Letra/Lyrics\)", ""),
    // (Letra)
    (r"(?i)\s\(Letra\)", ""),
    // (En vivo)
    (r"(?i)\s\(En\svivo\)", ""),
];

/// Filter rules to remove YouTube suffixes and prefixes from a text.
pub fn youtube_track_filter_rules() -> (r: Result<Vec<FilterRule>, FilterError>)
    ensures
        built_from(r, YOUTUBE_TRACK_PAIRS@),
{
    build_rules(&YOUTUBE_TRACK_PAIRS)
}

/// The (pattern, replacement) pairs of [`trim_symbols_filter_rules`].
pub const TRIM_SYMBOLS_PAIRS: [(&'static str, &'static str); 3] = [
    // Leftovers after e.g. (official video)
    (r"\(+\s*\)+", ""),
    // trim starting white chars and dash
    (r#"^[/,:;~\-\s"]+"#, ""),
    // trim trailing white chars and dash
    (r#"[/,:;~\-\s"]+$"#, ""),
];

/// Filter rules to remove leftovers after filtering text using
/// [`youtube_track_filter_rules`].
pub fn trim_symbols_filter_rules() -> (r: Result<Vec<FilterRule>, FilterError>)
    ensures
        built_from(r, TRIM_SYMBOLS_PAIRS@),
{
    build_rules(&TRIM_SYMBOLS_PAIRS)
}

/// The (pattern, replacement) pairs of [`remastered_filter_rules`].
pub const REMASTERED_PAIRS: [(&'static str, &'static str); 14] = [
    // Here Comes The Sun - Remastered
    (r"-\sRemastered$", ""),
    // Hey Jude - Remastered 2015
    (r"-\sRemastered\s\d+$", ""),
    // Let It Be (Remastered 2009)
    // Red Rain (Remaster 2012)
    (r"\(Remaster(ed)?\s\d+\)$", ""),
    // Pigs On The Wing (Part One) [2011 - Remaster]
    (r"\[\d+\s-\sRemaster\]$", ""),
    // Comfortably Numb (2011 - Remaster)
    // Dancing Days (2012 Remaster)
    (r"\(\d+(\s-)?\sRemaster\)$", ""),
    // Outside The Wall - 2011 - Remaster
    // China Grove - 2006 Remaster
    (r"-\s\d+(\s-)?\sRemaster$", ""),
    // Learning To Fly - 2001 Digital Remaster
    (r"-\s\d+\s.+?\sRemaster$", ""),
    // Your Possible Pasts - 2011 Remastered Version
    (r"-\s\d+\sRemastered Version$", ""),
    // Roll Over Beethoven (Live / Remastered)
    (r"\(Live\s/\sRemastered\)$", ""),
    // Ticket To Ride - Live / Remastered
    (r"-\sLive\s/\sRemastered$", ""),
    // Mothership (Remastered)
    // How The West Was Won [Remastered]
    (r"[(\[]Remastered[)\]]$", ""),
    // A Well Respected Man (2014 Remastered Version)
    // A Well Respected Man [2014 Remastered Version]
    (r"[(\[]\d{4} Re[Mm]astered Version[)\]]$", ""),
    // She Was Hot (2009 Re-Mastered Digital Version)
    // She Was Hot (2009 Remastered Digital Version)
    (r"[(\[]\d{4} Re-?[Mm]astered Digital Version[)\]]$", ""),
    // In The Court Of The Crimson King (Expanded & Remastered Original Album Mix)
    (r"\([^(]*Remaster[^)]*\)$", ""),
];

/// Filter rules to remove "Remastered..."-like strings from a text.
pub fn remastered_filter_rules() -> (r: Result<Vec<FilterRule>, FilterError>)
    ensures
        built_from(r, REMASTERED_PAIRS@),
{
    build_rules(&REMASTERED_PAIRS)
}

/// The (pattern, replacement) pairs of [`live_filter_rules`].
pub const LIVE_PAIRS: [(&'static str, &'static str); 3] = [
    // Track - Live
    (r"-\sLive?$", ""),
    // Track - Live at
    (r"-\sLive\s.+?$", ""),
    // (Live) or [Live]
    (r"(?i)[(\[]Live[)\]]", ""),
];

/// Filter rules to remove "Live..."-like strings from a text.
pub fn live_filter_rules() -> (r: Result<Vec<FilterRule>, FilterError>)
    ensures
        built_from(r, LIVE_PAIRS@),
{
    build_rules(&LIVE_PAIRS)
}

/// The (pattern, replacement) pairs of [`clean_explicit_filter_rules`].
pub const CLEAN_EXPLICIT_PAIRS: [(&'static str, &'static str); 2] = [
    // (Explicit) or [Explicit]
    (r"(?i)\s[(\[]Explicit[)\]]", ""),
    // (Clean) or [Clean]
    (r"(?i)\s[(\[]Clean[)\]]", ""),
];

/// Filter rules to remove "Explicit" and "Clean" from a text.
pub fn clean_explicit_filter_rules() -> (r: Result<Vec<FilterRule>, FilterError>)
    ensures
        built_from(r, CLEAN_EXPLICIT_PAIRS@),
{
    build_rules(&CLEAN_EXPLICIT_PAIRS)
}

/// The (pattern, replacement) pairs of [`feature_filter_rules`].
pub const FEATURE_PAIRS: [(&'static str, &'static str); 1] = [
    // [Feat. Artist] or (Feat. Artist)
    (r"(?i)\s[(\[]feat. .+[)\]]", ""),
];

/// Filter rules to remove feature information from a text.
pub fn feature_filter_rules() -> (r: Result<Vec<FilterRule>, FilterError>)
    ensures
        built_from(r, FEATURE_PAIRS@),
{
    build_rules(&FEATURE_PAIRS)
}

/// The (pattern, replacement) pairs of [`normalize_feature_filter_rules`].
pub const NORMALIZE_FEATURE_PAIRS: [(&'static str, &'static str); 1] = [
    // [Feat. Artist] or (Feat. Artist) -> Feat. Artist
    (r"(?i)\s[(\[](feat. .+)[)\]]", " $1"),
];

/// Filter rules to normalize feature information to "Feat. Artist".
pub fn normalize_feature_filter_rules() -> (r: Result<Vec<FilterRule>, FilterError>)
    ensures
        built_from(r, NORMALIZE_FEATURE_PAIRS@),
{
    build_rules(&NORMALIZE_FEATURE_PAIRS)
}

/// The (pattern, replacement) pairs of [`version_filter_rules`].
pub const VERSION_PAIRS: [(&'static str, &'static str); 8] = [
    // Love Will Come To You (Album Version)
    (r"[(\[]Album Version[)\]]$", ""),
    // I Melt With You (Rerecorded)
    // When I Need You [Re-Recorded]
    (r"[(\[]Re-?[Rr]ecorded[)\]]$", ""),
    // Your Cheatin' Heart (Single Version)
    (r"[(\[]Single Version[)\]]$", ""),
    // All Over Now (Edit)
    (r"[(\[]Edit[)\]]$", ""),
    // (I Can't Get No) Satisfaction - Mono Version
    (r"-\sMono Version$", ""),
    // Ruby Tuesday - Stereo Version
    (r"-\sStereo Version$", ""),
    // Pure McCartney (Deluxe Edition)
    (r"\(Deluxe Edition\)$", ""),
    // 6 Foot 7 Foot (Explicit Version)
    (r"(?i)[(\[]Explicit Version[)\]]", ""),
];

/// Filter rules to remove version information (eg. "Album Version" or "Deluxe Edition")
/// from a text.
pub fn version_filter_rules() -> (r: Result<Vec<FilterRule>, FilterError>)
    ensures
        built_from(r, VERSION_PAIRS@),
{
    build_rules(&VERSION_PAIRS)
}

/// The (pattern, replacement) pairs of [`suffix_filter_rules`].
pub const SUFFIX_PAIRS: [(&'static str, &'static str); 2] = [
    // "- X Remix" -> "(X Remix)" and similar
    (
        r"(?i)-\s(.+?)\s((Re)?mix|edit|dub|mix|vip|version)$",
        "($1 $2)"
    ),
    (r"(?i)-\s(Remix|VIP)$", "($1)"),
];

/// Filter rules to normalize "- suffix" to "(suffix)" in a text.
pub fn suffix_filter_rules() -> (r: Result<Vec<FilterRule>, FilterError>)
    ensures
        built_from(r, SUFFIX_PAIRS@),
{
    build_rules(&SUFFIX_PAIRS)
}

/// The (pattern, replacement) pairs of [`trim_whitespace_filter_rules`].
pub const TRIM_WHITESPACE_PAIRS: [(&'static str, &'static str); 2] = [(r"^\s+", ""), (r"\s+$", "")];

/// Filter rules to remove leading and trailing whitespace from a text.
pub fn trim_whitespace_filter_rules() -> (r: Result<Vec<FilterRule>, FilterError>)
    ensures
        built_from(r, TRIM_WHITESPACE_PAIRS@),
{
    build_rules(&TRIM_WHITESPACE_PAIRS)
}

} // verus!
