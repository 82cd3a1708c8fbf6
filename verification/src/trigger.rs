//! The trigger matcher: a case-insensitive substring test.

use vstd::prelude::*;
use vstd::string::*;

verus! {

/// The lowercase form of a string, as `str::to_lowercase` of the standard
/// library computes it from the string's characters.
pub uninterp spec fn lowercase(s: Seq<char>) -> Seq<char>;

/// Calls `str::to_lowercase`. Taken on trust: the result is the lowercase
/// form of the argument, a function of its characters alone.
#[verifier::external_body]
fn to_lowercase(s: &str) -> (folded: String)
    ensures
        folded@ == lowercase(s@),
{
    s.to_lowercase()
}

/// `pattern` stands in `text` at position `at`.
pub open spec fn occurs_at(text: Seq<char>, pattern: Seq<char>, at: int) -> bool {
    &&& 0 <= at
    &&& at + pattern.len() <= text.len()
    &&& forall|k: int| 0 <= k < pattern.len() ==> text[at + k] == pattern[k]
}

/// `pattern` is a contiguous part of `text`.
pub open spec fn is_substring(text: Seq<char>, pattern: Seq<char>) -> bool {
    exists|at: int| occurs_at(text, pattern, at)
}

/// What the matcher decides: the empty trigger matches every text, the empty
/// text matches no other trigger, and otherwise the lowercase trigger has to
/// be a contiguous part of the lowercase text.
pub open spec fn trigger_matches(text: Seq<char>, trigger: Seq<char>) -> bool {
    if trigger.len() == 0 {
        true
    } else if text.len() == 0 {
        false
    } else {
        is_substring(lowercase(text), lowercase(trigger))
    }
}

/// The characters of a string, in their order.
fn chars_of(s: &str) -> (chars: Vec<char>)
    ensures
        chars@ == s@,
{
    let len: usize = s.unicode_len();
    let mut chars: Vec<char> = Vec::with_capacity(len);
    let mut i: usize = 0;
    while i < len
        invariant
            len == s@.len(),
            i <= len,
            chars@ == s@.subrange(0, i as int),
        decreases len - i,
    {
        chars.push(s.get_char(i));
        assert(chars@ =~= s@.subrange(0, i + 1));
        i = i + 1;
    }
    assert(chars@ =~= s@);
    chars
}

/// Whether `pattern` stands in `text` at position `at`.
fn matches_at(text: &Vec<char>, pattern: &Vec<char>, at: usize) -> (hit: bool)
    requires
        at + pattern@.len() <= text@.len(),
    ensures
        hit == occurs_at(text@, pattern@, at as int),
{
    let text_len: usize = text.len();
    let pattern_len: usize = pattern.len();
    let mut k: usize = 0;
    while k < pattern_len
        invariant
            text_len == text@.len(),
            pattern_len == pattern@.len(),
            at + pattern_len <= text_len,
            k <= pattern_len,
            forall|j: int| 0 <= j < k ==> text@[at + j] == pattern@[j],
        decreases pattern_len - k,
    {
        if text[at + k] != pattern[k] {
            return false;
        }
        k = k + 1;
    }
    true
}

/// Substring test, exact in case: whether `pattern` is a contiguous part of
/// `text`. Both are compared character by character.
pub fn contains(text: &str, pattern: &str) -> (found: bool)
    ensures
        found == is_substring(text@, pattern@),
{
    let text_chars = chars_of(text);
    let pattern_chars = chars_of(pattern);
    let text_len: usize = text_chars.len();
    let pattern_len: usize = pattern_chars.len();
    if pattern_len > text_len {
        return false;
    }
    let last: usize = text_len - pattern_len;
    let mut at: usize = 0;
    while at <= last
        invariant
            text_chars@ == text@,
            pattern_chars@ == pattern@,
            text_len == text@.len(),
            pattern_len == pattern@.len(),
            last == text_len - pattern_len,
            at <= last + 1,
            forall|i: int| 0 <= i < at ==> !occurs_at(text@, pattern@, i),
        decreases last + 1 - at,
    {
        if matches_at(&text_chars, &pattern_chars, at) {
            return true;
        }
        at = at + 1;
    }
    false
}

/// Whether the text of a message holds the trigger phrase, whatever the case
/// of either.
pub fn matches_trigger(text: &str, trigger: &str) -> (hit: bool)
    ensures
        hit == trigger_matches(text@, trigger@),
{
    if trigger.is_empty() {
        return true;
    }
    if text.is_empty() {
        return false;
    }
    let folded_text = to_lowercase(text);
    let folded_trigger = to_lowercase(trigger);
    contains(folded_text.as_str(), folded_trigger.as_str())
}

/// For a trigger and a text that are not empty, the matcher says yes exactly
/// when the lowercase trigger is a contiguous part of the lowercase text.
pub proof fn lemma_match_is_folded_substring(text: Seq<char>, trigger: Seq<char>)
    requires
        text.len() > 0,
        trigger.len() > 0,
    ensures
        trigger_matches(text, trigger) <==> is_substring(lowercase(text), lowercase(trigger)),
{
}

/// The empty trigger matches every text, and the empty text matches no
/// trigger but the empty one.
pub proof fn lemma_match_on_empty(text: Seq<char>, trigger: Seq<char>)
    ensures
        trigger.len() == 0 ==> trigger_matches(text, trigger),
        text.len() == 0 && trigger.len() > 0 ==> !trigger_matches(text, trigger),
{
}

} // verus!
