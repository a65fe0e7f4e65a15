//! Applying lists of filter rules to a text.
//!
//! One pass applies every rule of a list once, in list order, each to the
//! output of the one before. [`apply_rules`] repeats passes until a pass
//! leaves the text as it found it.

use crate::rules::{matches_rule, rewritten, Applied, FilterRule};
use vstd::prelude::*;

verus! {

/// `text` after one pass of `rules`: each rule applied once, in order.
pub open spec fn pass(rules: Seq<FilterRule>, text: Seq<char>) -> Seq<char>
    decreases rules.len(),
{
    if rules.len() == 0 {
        text
    } else {
        rewritten(rules.last()@, pass(rules.drop_last(), text))
    }
}

/// `text` after `n` passes of `rules`.
pub open spec fn passes(rules: Seq<FilterRule>, text: Seq<char>, n: nat) -> Seq<char>
    decreases n,
{
    if n == 0 {
        text
    } else {
        pass(rules, passes(rules, text, (n - 1) as nat))
    }
}

/// A pass of `rules` leaves `text` as it is.
pub open spec fn is_settled(rules: Seq<FilterRule>, text: Seq<char>) -> bool {
    pass(rules, text) == text
}

/// Repeated passes of `rules` reach a settled text from `text`.
pub open spec fn converges(rules: Seq<FilterRule>, text: Seq<char>) -> bool {
    exists|n: nat| is_settled(rules, #[trigger] passes(rules, text, n))
}

/// Repeated passes of `rules` reach a settled text from `text` after fewer
/// than `n` passes, so that at most `n` passes find it settled.
pub open spec fn settles_within(rules: Seq<FilterRule>, text: Seq<char>, n: nat) -> bool {
    exists|j: nat| j < n && is_settled(rules, #[trigger] passes(rules, text, j))
}

/// The settled text that repeated passes of `rules` reach from `text`
/// (meaningful where `converges(rules, text)`).
pub open spec fn normal_form(rules: Seq<FilterRule>, text: Seq<char>) -> Seq<char> {
    passes(rules, text, choose|n: nat| is_settled(rules, #[trigger] passes(rules, text, n)))
}

/// Once settled, further passes change nothing.
proof fn lemma_settled_stays(rules: Seq<FilterRule>, text: Seq<char>, n: nat, m: nat)
    requires
        is_settled(rules, passes(rules, text, n)),
        n <= m,
    ensures
        passes(rules, text, m) == passes(rules, text, n),
    decreases m - n,
{
    if n < m {
        lemma_settled_stays(rules, text, n, (m - 1) as nat);
    }
}

/// Every settled text on the way from `text` is its normal form.
proof fn lemma_normal_form_is_any_settled(rules: Seq<FilterRule>, text: Seq<char>, n: nat)
    requires
        is_settled(rules, passes(rules, text, n)),
    ensures
        converges(rules, text),
        normal_form(rules, text) == passes(rules, text, n),
{
    let k = choose|k: nat| is_settled(rules, #[trigger] passes(rules, text, k));
    if k <= n {
        lemma_settled_stays(rules, text, k, n);
    } else {
        lemma_settled_stays(rules, text, n, k);
    }
}

/// Applying the rules again to their own output changes nothing: where the
/// passes of `rules` settle on `text`, they settle on its normal form at
/// once, and that normal form is its own.
pub proof fn lemma_apply_rules_idempotent(rules: Seq<FilterRule>, text: Seq<char>)
    requires
        converges(rules, text),
    ensures
        converges(rules, normal_form(rules, text)),
        normal_form(rules, normal_form(rules, text)) == normal_form(rules, text),
{
    let n = choose|n: nat| is_settled(rules, #[trigger] passes(rules, text, n));
    let t = normal_form(rules, text);
    assert(passes(rules, t, 0) == t);
    lemma_normal_form_is_any_settled(rules, t, 0);
}

/// A text that no rule of the list matches comes back as it is.
pub proof fn lemma_no_match_stable(rules: Seq<FilterRule>, text: Seq<char>)
    requires
        forall|i: int| 0 <= i < rules.len() ==> !matches_rule(#[trigger] rules[i]@, text),
    ensures
        converges(rules, text),
        normal_form(rules, text) == text,
{
    lemma_pass_no_match(rules, text);
    assert(passes(rules, text, 0) == text);
    lemma_normal_form_is_any_settled(rules, text, 0);
}

/// A pass of rules that all miss `text` leaves it as it is.
proof fn lemma_pass_no_match(rules: Seq<FilterRule>, text: Seq<char>)
    requires
        forall|i: int| 0 <= i < rules.len() ==> !matches_rule(#[trigger] rules[i]@, text),
    ensures
        pass(rules, text) == text,
    decreases rules.len(),
{
    if rules.len() > 0 {
        let front = rules.drop_last();
        assert forall|i: int| 0 <= i < front.len() implies !matches_rule(#[trigger] front[i]@, text) by {
            assert(front[i] == rules[i]);
        }
        lemma_pass_no_match(front, text);
        assert(!matches_rule(rules[rules.len() - 1]@, text));
    }
}

/// A pass of two concatenated lists is a pass of the first list followed by
/// a pass of the second: concatenation keeps the order of the rules.
pub proof fn lemma_pass_concat(first: Seq<FilterRule>, second: Seq<FilterRule>, text: Seq<char>)
    ensures
        pass(first + second, text) == pass(second, pass(first, text)),
    decreases second.len(),
{
    if second.len() == 0 {
        assert(first + second =~= first);
    } else {
        assert((first + second).drop_last() =~= first + second.drop_last());
        lemma_pass_concat(first, second.drop_last(), text);
    }
}

/// One pass of `rules` over `text`.
fn apply_once(text: String, rules: &[FilterRule]) -> (r: String)
    ensures
        r@ == pass(rules@, text@),
{
    let mut result = text;
    let mut i: usize = 0;
    while i < rules.len()
        invariant
            i <= rules@.len(),
            result@ == pass(rules@.take(i as int), text@),
        decreases rules@.len() - i,
    {
        match rules[i].apply(result.as_str()) {
            Applied::Changed(filtered) => {
                result = filtered;
            },
            Applied::Unchanged => {},
        }
        assert(rules@.take(i + 1).drop_last() =~= rules@.take(i as int));
        i = i + 1;
    }
    assert(rules@.take(rules@.len() as int) =~= rules@);
    result
}

/// Applies `rules` to `text` pass after pass until a pass changes nothing,
/// and returns that settled text.
///
/// The rules must settle on `text`: a list in which some rule's output
/// always feeds another change would make passes run forever.
/// [`apply_rules_bounded`] takes any list and bounds the passes.
pub fn apply_rules(text: &str, rules: &[FilterRule]) -> (r: String)
    requires
        converges(rules@, text@),
    ensures
        r@ == normal_form(rules@, text@),
        is_settled(rules@, r@),
{
    let ghost n = choose|n: nat| is_settled(rules@, #[trigger] passes(rules@, text@, n));
    let mut prev = text.to_string();
    let mut result = apply_once(text.to_string(), rules);
    let ghost mut k: nat = 1;
    assert(passes(rules@, text@, 1) == pass(rules@, passes(rules@, text@, 0)));
    while result != prev
        invariant
            1 <= k <= n + 1,
            prev@ == passes(rules@, text@, (k - 1) as nat),
            result@ == passes(rules@, text@, k),
            is_settled(rules@, passes(rules@, text@, n)),
        decreases n + 1 - k,
    {
        proof {
            if k - 1 >= n {
                lemma_settled_stays(rules@, text@, n, (k - 1) as nat);
            }
        }
        prev = result.clone();
        result = apply_once(result, rules);
        proof {
            k = k + 1;
        }
    }
    proof {
        lemma_normal_form_is_any_settled(rules@, text@, (k - 1) as nat);
    }
    result
}

/// Applies `rules` to `text` as [`apply_rules`] does, but runs at most
/// `max_passes` passes. Returns the settled text when a pass within that
/// bound changed nothing, and `None` when every one of them changed the
/// text.
pub fn apply_rules_bounded(text: &str, rules: &[FilterRule], max_passes: usize) -> (r: Option<String>)
    ensures
        r is Some <==> settles_within(rules@, text@, max_passes as nat),
        r matches Some(s) ==> converges(rules@, text@) && s@ == normal_form(rules@, text@),
{
    let mut prev = text.to_string();
    let mut count: usize = 0;
    while count < max_passes
        invariant
            count <= max_passes,
            prev@ == passes(rules@, text@, count as nat),
            forall|j: nat| j < count ==> !is_settled(rules@, #[trigger] passes(rules@, text@, j)),
        decreases max_passes - count,
    {
        let result = apply_once(prev.clone(), rules);
        if result == prev {
            proof {
                lemma_normal_form_is_any_settled(rules@, text@, count as nat);
            }
            return Some(result);
        }
        count = count + 1;
        prev = result;
    }
    None
}

} // verus!
