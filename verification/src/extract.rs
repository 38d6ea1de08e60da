use crate::text::{
    chars_of, find_first, find_last, first_index, has_prefix_at, is_whitespace, last_index,
    lemma_first_index, lemma_last_index, lemma_strip_edges, lemma_strip_is_part,
    lemma_strip_unchanged, strip, strip_bounds, string_of, trim, CharClass,
};
use vstd::prelude::*;

verus! {

/// The marker that opens and closes a fenced code block.
pub open spec fn fence() -> Seq<char> {
    seq!['`', '`', '`']
}

/// The language tag that a fenced block of JSON carries.
pub open spec fn language_tag() -> Seq<char> {
    seq!['j', 's', 'o', 'n']
}

/// The part of `t` from its first `open` to its last `close`, if that `close` comes later.
pub open spec fn bracketed(t: Seq<char>, open: char, close: char) -> Option<Seq<char>> {
    match (first_index(t, open), last_index(t, close)) {
        (Some(start), Some(end)) => if end > start {
            Some(t.subrange(start, end + 1))
        } else {
            None
        },
        _ => None,
    }
}

/// The inside of a fenced block without the language tag, where the tag stands directly
/// after the opening fence.
pub open spec fn without_tag(inside: Seq<char>) -> Seq<char> {
    if language_tag().is_prefix_of(inside) {
        inside.skip(language_tag().len() as int)
    } else {
        inside
    }
}

/// The JSON fragment that `extract_json` recovers from a reply.
///
/// The reply is trimmed. A fenced reply loses its backticks at both ends, then the language
/// tag where it stands directly after the opening fence, and is trimmed again. Otherwise
/// the fragment runs from the first `{` to the last `}`, or else from the first `[` to the
/// last `]`, or else it is the trimmed reply.
pub open spec fn extracted_json(raw: Seq<char>) -> Seq<char> {
    let t = trim(raw);
    if fence().is_prefix_of(t) {
        trim(without_tag(strip(t, CharClass::Only('`'))))
    } else {
        match bracketed(t, '{', '}') {
            Some(object) => object,
            None => match bracketed(t, '[', ']') {
                Some(array) => array,
                None => t,
            },
        }
    }
}

/// The bounds in `chars` of the bracketed part of `chars[lo..hi]`.
fn bracket_bounds(chars: &Vec<char>, lo: usize, hi: usize, open: char, close: char) -> (bounds:
    Option<(usize, usize)>)
    requires
        lo <= hi <= chars.len(),
    ensures
        match bounds {
            Some((start, end)) => lo <= start < end <= hi && bracketed(
                chars@.subrange(lo as int, hi as int),
                open,
                close,
            ) == Some(chars@.subrange(start as int, end as int)),
            None => bracketed(chars@.subrange(lo as int, hi as int), open, close).is_none(),
        },
{
    match find_first(chars, lo, hi, open) {
        Some(start) => match find_last(chars, lo, hi, close) {
            Some(end) => {
                if end > start {
                    assert(chars@.subrange(lo as int, hi as int).subrange(start - lo, end - lo + 1)
                        =~= chars@.subrange(start as int, end + 1));
                    Some((start, end + 1))
                } else {
                    None
                }
            },
            None => None,
        },
        None => None,
    }
}

/// Recovers a JSON fragment from the free text of a reply. It never fails and does not check
/// that the fragment is valid JSON.
pub fn extract_json(raw: &str) -> (json: String)
    ensures
        json@ == extracted_json(raw@),
{
    let chars = chars_of(raw);
    assert(chars@.subrange(0, chars@.len() as int) =~= raw@);
    let (lo, hi) = strip_bounds(&chars, 0, chars.len(), CharClass::Whitespace);
    let fence_chars: Vec<char> = vec!['`', '`', '`'];
    assert(fence_chars@ =~= fence());
    if has_prefix_at(&chars, lo, hi, &fence_chars) {
        let (start, end) = strip_bounds(&chars, lo, hi, CharClass::Only('`'));
        let tag: Vec<char> = vec!['j', 's', 'o', 'n'];
        assert(tag@ =~= language_tag());
        let ghost inside = chars@.subrange(start as int, end as int);
        let after_tag: usize = if has_prefix_at(&chars, start, end, &tag) {
            assert(inside.skip(tag@.len() as int) =~= chars@.subrange(start + 4, end as int));
            start + 4
        } else {
            start
        };
        let (from, to) = strip_bounds(&chars, after_tag, end, CharClass::Whitespace);
        return string_of(&chars, from, to);
    }
    if let Some((start, end)) = bracket_bounds(&chars, lo, hi, '{', '}') {
        return string_of(&chars, start, end);
    }
    if let Some((start, end)) = bracket_bounds(&chars, lo, hi, '[', ']') {
        return string_of(&chars, start, end);
    }
    string_of(&chars, lo, hi)
}

/// Extraction only narrows: the fragment is a contiguous part of the reply.
pub proof fn lemma_extract_narrows(raw: Seq<char>) -> (bounds: (int, int))
    ensures
        0 <= bounds.0 <= bounds.1 <= raw.len(),
        extracted_json(raw) == raw.subrange(bounds.0, bounds.1),
{
    let (a, b) = lemma_strip_is_part(raw, CharClass::Whitespace);
    let t = trim(raw);
    if fence().is_prefix_of(t) {
        let (c, d) = lemma_strip_is_part(t, CharClass::Only('`'));
        let inside = strip(t, CharClass::Only('`'));
        let rest = without_tag(inside);
        let k: int = if language_tag().is_prefix_of(inside) {
            language_tag().len() as int
        } else {
            0
        };
        assert(rest =~= raw.subrange(a + c + k, a + d));
        let (e, f) = lemma_strip_is_part(rest, CharClass::Whitespace);
        assert(rest.subrange(e, f) =~= raw.subrange(a + c + k + e, a + c + k + f));
        (a + c + k + e, a + c + k + f)
    } else {
        lemma_first_index(t, '{');
        lemma_last_index(t, '}');
        lemma_first_index(t, '[');
        lemma_last_index(t, ']');
        match bracketed(t, '{', '}') {
            Some(object) => {
                let start = first_index(t, '{')->0;
                let end = last_index(t, '}')->0;
                assert(t.subrange(start, end + 1) =~= raw.subrange(a + start, a + end + 1));
                (a + start, a + end + 1)
            },
            None => match bracketed(t, '[', ']') {
                Some(array) => {
                    let start = first_index(t, '[')->0;
                    let end = last_index(t, ']')->0;
                    assert(t.subrange(start, end + 1) =~= raw.subrange(a + start, a + end + 1));
                    (a + start, a + end + 1)
                },
                None => (a, b),
            },
        }
    }
}

/// A reply that is not fenced and holds no bracket comes back trimmed and otherwise
/// unchanged.
pub proof fn lemma_extract_plain(raw: Seq<char>)
    requires
        !fence().is_prefix_of(trim(raw)),
        forall|i: int|
            0 <= i < raw.len() ==> raw[i] != '{' && raw[i] != '}' && raw[i] != '[' && raw[i]
                != ']',
    ensures
        extracted_json(raw) == trim(raw),
{
    let (a, b) = lemma_strip_is_part(raw, CharClass::Whitespace);
    let t = trim(raw);
    lemma_first_index(t, '{');
    lemma_first_index(t, '[');
    if let Some(i) = first_index(t, '{') {
        assert(t[i] == raw[a + i]);
    }
    if let Some(i) = first_index(t, '[') {
        assert(t[i] == raw[a + i]);
    }
}

/// The fragment carries no white space at its ends: trimming it changes nothing.
pub proof fn lemma_extract_is_trimmed(raw: Seq<char>)
    ensures
        trim(extracted_json(raw)) == extracted_json(raw),
{
    let t = trim(raw);
    if fence().is_prefix_of(t) {
        let inner = without_tag(strip(t, CharClass::Only('`')));
        lemma_strip_edges(inner, CharClass::Whitespace);
        lemma_strip_unchanged(trim(inner), CharClass::Whitespace);
    } else {
        lemma_first_index(t, '{');
        lemma_last_index(t, '}');
        lemma_first_index(t, '[');
        lemma_last_index(t, ']');
        assert(!is_whitespace('{') && !is_whitespace('}') && !is_whitespace('[')
            && !is_whitespace(']'));
        match bracketed(t, '{', '}') {
            Some(object) => {
                assert(object[0] == '{' && object.last() == '}');
                lemma_strip_unchanged(object, CharClass::Whitespace);
            },
            None => match bracketed(t, '[', ']') {
                Some(array) => {
                    assert(array[0] == '[' && array.last() == ']');
                    lemma_strip_unchanged(array, CharClass::Whitespace);
                },
                None => {
                    lemma_strip_edges(raw, CharClass::Whitespace);
                    lemma_strip_unchanged(t, CharClass::Whitespace);
                },
            },
        }
    }
}

} // verus!
