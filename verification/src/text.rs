//! Text helpers: case-insensitive substring matching on `str`, and the
//! assumptions made about the few `std` string operations the wizard uses.

use vstd::prelude::*;

verus! {

/// The lowercase form of a string as `str::to_lowercase` computes it from
/// the Unicode tables. The mapping is fixed by the standard library and is
/// not restated here; contracts only name it.
pub uninterp spec fn lowercase_of(s: Seq<char>) -> Seq<char>;

/// Assumed of `str::to_lowercase`: the returned string is the lowercase
/// form of the receiver, a function of its characters alone.
pub assume_specification[ str::to_lowercase ](s: &str) -> (lowered: String)
    ensures
        lowered@ == lowercase_of(s@),
;

/// Assumed of `String::push`: the character is appended at the end and
/// nothing else changes.
pub assume_specification[ String::push ](s: &mut String, ch: char)
    ensures
        final(s)@ == old(s)@.push(ch),
;

/// Assumed of `String::pop`: the last character is removed and returned;
/// an empty string is left as it is and `None` is returned.
pub assume_specification[ String::pop ](s: &mut String) -> (last: Option<char>)
    ensures
        old(s)@.len() == 0 ==> last is None && final(s)@ == old(s)@,
        old(s)@.len() > 0 ==> last == Some(old(s)@.last()) && final(s)@ == old(s)@.drop_last(),
;

/// The contents of a list of strings, each taken as its characters.
pub open spec fn texts(strings: Seq<String>) -> Seq<Seq<char>> {
    strings.map_values(|s: String| s@)
}

/// `needle` occurs in `haystack` starting at position `at`.
pub open spec fn occurs_at(needle: Seq<char>, haystack: Seq<char>, at: int) -> bool {
    &&& 0 <= at
    &&& at + needle.len() <= haystack.len()
    &&& haystack.subrange(at, at + needle.len()) == needle
}

/// `needle` occurs somewhere in `haystack` as a contiguous run of characters.
pub open spec fn is_substring(needle: Seq<char>, haystack: Seq<char>) -> bool {
    exists|at: int| occurs_at(needle, haystack, at)
}

/// An option is shown under a filter when the filter, ignoring case, is a
/// substring of the option.
pub open spec fn matches_filter(option: Seq<char>, filter: Seq<char>) -> bool {
    is_substring(lowercase_of(filter), lowercase_of(option))
}

/// The test that keeps the options matching `filter`.
pub open spec fn shown_under(filter: Seq<char>) -> spec_fn(Seq<char>) -> bool {
    |option: Seq<char>| matches_filter(option, filter)
}

/// Filtering keeps exactly the options that match: an option is among the
/// visible ones if and only if it is among the options and the filter,
/// ignoring case, is a substring of it.
pub proof fn visible_options_are_the_matches(
    options: Seq<Seq<char>>,
    filter: Seq<char>,
    option: Seq<char>,
)
    ensures
        options.filter(shown_under(filter)).contains(option) <==> options.contains(option)
            && matches_filter(option, filter),
        options.filter(shown_under(filter)).len() <= options.len(),
{
    let shown = options.filter(shown_under(filter));
    options.lemma_filter_len(shown_under(filter));
    if shown.contains(option) {
        let i = choose|i: int| 0 <= i < shown.len() && shown[i] == option;
        options.lemma_filter_pred(shown_under(filter), i);
        options.lemma_filter_contains_rev(shown_under(filter), option);
    }
    if options.contains(option) && matches_filter(option, filter) {
        let i = choose|i: int| 0 <= i < options.len() && options[i] == option;
        options.lemma_filter_contains(shown_under(filter), i);
    }
}

/// The characters of a string, in order.
pub fn chars_of(s: &str) -> (out: Vec<char>)
    ensures
        out@ == s@,
{
    let mut out: Vec<char> = Vec::new();
    for c in it: s.chars()
        invariant
            it.seq() == s@,
            out@ == it.seq().take(it.index() as int),
    {
        out.push(c);
    }
    out
}

/// Whether `needle` stands in `haystack` at position `at`.
fn matches_at(haystack: &Vec<char>, needle: &Vec<char>, at: usize) -> (found: bool)
    requires
        at + needle.len() <= haystack.len(),
    ensures
        found == occurs_at(needle@, haystack@, at as int),
{
    let mut k: usize = 0;
    while k < needle.len()
        invariant
            k <= needle.len(),
            at + needle.len() <= haystack.len(),
            forall|j: int| 0 <= j < k ==> haystack@[at + j] == needle@[j],
        decreases needle.len() - k,
    {
        if haystack[at + k] != needle[k] {
            assert(haystack@.subrange(at as int, at + needle.len())[k as int] != needle@[k as int]);
            return false;
        }
        k += 1;
    }
    assert(haystack@.subrange(at as int, at + needle.len()) =~= needle@);
    true
}

/// Plain substring search: whether `needle` occurs in `haystack`, case and
/// all. The empty needle occurs in every haystack.
pub fn contains_text(haystack: &str, needle: &str) -> (found: bool)
    ensures
        found == is_substring(needle@, haystack@),
{
    let hay = chars_of(haystack);
    let pat = chars_of(needle);
    let mut at: usize = 0;
    while hay.len() - at >= pat.len()
        invariant
            at <= hay.len(),
            hay@ == haystack@,
            pat@ == needle@,
            forall|k: int| 0 <= k < at ==> !occurs_at(needle@, haystack@, k),
        decreases hay.len() - at,
    {
        if matches_at(&hay, &pat, at) {
            return true;
        }
        assert(at < hay.len()) by {
            // An empty needle would have matched right here.
            if at == hay.len() {
                assert(haystack@.subrange(at as int, at as int) =~= needle@);
            }
        }
        at += 1;
    }
    false
}

/// Whether `option` stays visible under `filter`: case-insensitive
/// substring containment, with both sides lowered by `str::to_lowercase`.
pub fn option_matches(option: &str, filter: &str) -> (shown: bool)
    ensures
        shown == matches_filter(option@, filter@),
{
    let lowered_option = option.to_lowercase();
    let lowered_filter = filter.to_lowercase();
    contains_text(lowered_option.as_str(), lowered_filter.as_str())
}

/// The options that stay visible under `filter`, in the order they are listed.
/// The options themselves are never changed: what comes back are copies of
/// those that match.
pub fn filter_options(options: &Vec<String>, filter: &str) -> (shown: Vec<String>)
    ensures
        texts(shown@) == texts(options@).filter(shown_under(filter@)),
{
    let mut shown: Vec<String> = Vec::new();
    let mut i: usize = 0;
    assert(texts(options@).take(0) =~= Seq::<Seq<char>>::empty());
    assert(texts(shown@) =~= texts(options@).take(0).filter(shown_under(filter@))) by {
        reveal(Seq::filter);
    }
    while i < options.len()
        invariant
            i <= options.len(),
            texts(shown@) == texts(options@).take(i as int).filter(shown_under(filter@)),
        decreases options.len() - i,
    {
        let ghost before = texts(options@).take(i as int);
        let ghost option = options@[i as int]@;
        assert(texts(options@).take(i + 1) =~= before.push(option));
        proof {
            before.lemma_filter_push(option, shown_under(filter@));
        }
        if option_matches(options[i].as_str(), filter) {
            let ghost kept = texts(shown@);
            shown.push(options[i].clone());
            assert(texts(shown@) =~= kept.push(option));
        }
        i += 1;
    }
    assert(texts(options@).take(options.len() as int) =~= texts(options@));
    shown
}

} // verus!
