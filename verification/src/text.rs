use vstd::prelude::*;
use vstd::string::*;

verus! {

/// The characters that carry the Unicode property `White_Space`.
pub open spec fn is_whitespace(c: char) -> bool {
    let n = c as u32;
    (0x09 <= n <= 0x0d) || n == 0x20 || n == 0x85 || n == 0xa0 || n == 0x1680 || (0x2000 <= n
        <= 0x200a) || n == 0x2028 || n == 0x2029 || n == 0x202f || n == 0x205f || n == 0x3000
}

/// A set of characters that can be stripped from the ends of a text.
#[derive(Clone, Copy)]
pub enum CharClass {
    /// Every white-space character.
    Whitespace,
    /// One character only.
    Only(char),
}

impl CharClass {
    /// Whether `c` belongs to the class.
    pub open spec fn has(self, c: char) -> bool {
        match self {
            CharClass::Whitespace => is_whitespace(c),
            CharClass::Only(d) => c == d,
        }
    }

    pub fn contains(&self, c: char) -> (found: bool)
        ensures
            found == self.has(c),
    {
        match self {
            CharClass::Whitespace => {
                let n: u32 = c as u32;
                (0x09 <= n && n <= 0x0d) || n == 0x20 || n == 0x85 || n == 0xa0 || n == 0x1680 || (
                0x2000 <= n && n <= 0x200a) || n == 0x2028 || n == 0x2029 || n == 0x202f || n
                    == 0x205f || n == 0x3000
            },
            CharClass::Only(d) => c == *d,
        }
    }
}

/// `s` without its longest prefix of characters of `class`.
pub open spec fn strip_start(s: Seq<char>, class: CharClass) -> Seq<char>
    decreases s.len(),
{
    if s.len() > 0 && class.has(s[0]) {
        strip_start(s.drop_first(), class)
    } else {
        s
    }
}

/// `s` without its longest suffix of characters of `class`.
pub open spec fn strip_end(s: Seq<char>, class: CharClass) -> Seq<char>
    decreases s.len(),
{
    if s.len() > 0 && class.has(s.last()) {
        strip_end(s.drop_last(), class)
    } else {
        s
    }
}

/// `s` with the characters of `class` removed from both ends.
pub open spec fn strip(s: Seq<char>, class: CharClass) -> Seq<char> {
    strip_end(strip_start(s, class), class)
}

/// `s` without leading and trailing white space.
pub open spec fn trim(s: Seq<char>) -> Seq<char> {
    strip(s, CharClass::Whitespace)
}

/// The position of the first `c` in `s`.
pub open spec fn first_index(s: Seq<char>, c: char) -> Option<int>
    decreases s.len(),
{
    if s.len() == 0 {
        None
    } else if s[0] == c {
        Some(0)
    } else {
        match first_index(s.drop_first(), c) {
            Some(i) => Some(i + 1),
            None => None,
        }
    }
}

/// The position of the last `c` in `s`.
pub open spec fn last_index(s: Seq<char>, c: char) -> Option<int>
    decreases s.len(),
{
    if s.len() == 0 {
        None
    } else if s.last() == c {
        Some(s.len() - 1)
    } else {
        last_index(s.drop_last(), c)
    }
}

/// Stripping the front removes exactly the leading run of class characters.
pub proof fn lemma_strip_start(s: Seq<char>, class: CharClass, a: int)
    requires
        0 <= a <= s.len(),
        forall|i: int| 0 <= i < a ==> class.has(s[i]),
        a < s.len() ==> !class.has(s[a]),
    ensures
        strip_start(s, class) == s.subrange(a, s.len() as int),
    decreases a,
{
    if a == 0 {
        assert(s.subrange(0, s.len() as int) =~= s);
    } else {
        let rest = s.drop_first();
        assert forall|i: int| 0 <= i < a - 1 implies class.has(rest[i]) by {
            assert(rest[i] == s[i + 1]);
        }
        lemma_strip_start(rest, class, a - 1);
        assert(rest.subrange(a - 1, rest.len() as int) =~= s.subrange(a, s.len() as int));
    }
}

/// Stripping the back removes exactly the trailing run of class characters.
pub proof fn lemma_strip_end(s: Seq<char>, class: CharClass, b: int)
    requires
        0 <= b <= s.len(),
        forall|i: int| b <= i < s.len() ==> class.has(s[i]),
        b > 0 ==> !class.has(s[b - 1]),
    ensures
        strip_end(s, class) == s.subrange(0, b),
    decreases s.len() - b,
{
    if b == s.len() {
        assert(s.subrange(0, b) =~= s);
    } else {
        let rest = s.drop_last();
        assert forall|i: int| b <= i < rest.len() implies class.has(rest[i]) by {
            assert(rest[i] == s[i]);
        }
        lemma_strip_end(rest, class, b);
        assert(rest.subrange(0, b) =~= s.subrange(0, b));
    }
}

/// What `first_index` finds is the first occurrence, and it finds one if there is any.
pub proof fn lemma_first_index(s: Seq<char>, c: char)
    ensures
        match first_index(s, c) {
            Some(i) => 0 <= i < s.len() && s[i] == c && forall|j: int| 0 <= j < i ==> s[j] != c,
            None => forall|j: int| 0 <= j < s.len() ==> s[j] != c,
        },
    decreases s.len(),
{
    if s.len() > 0 && s[0] != c {
        let rest = s.drop_first();
        lemma_first_index(rest, c);
        match first_index(rest, c) {
            Some(i) => {
                assert forall|j: int| 0 <= j < i + 1 implies s[j] != c by {
                    if j > 0 {
                        assert(rest[j - 1] == s[j]);
                    }
                }
            },
            None => {
                assert forall|j: int| 0 <= j < s.len() implies s[j] != c by {
                    if j > 0 {
                        assert(rest[j - 1] == s[j]);
                    }
                }
            },
        }
    }
}

/// What `last_index` finds is the last occurrence, and it finds one if there is any.
pub proof fn lemma_last_index(s: Seq<char>, c: char)
    ensures
        match last_index(s, c) {
            Some(i) => 0 <= i < s.len() && s[i] == c && forall|j: int|
                i < j < s.len() ==> s[j] != c,
            None => forall|j: int| 0 <= j < s.len() ==> s[j] != c,
        },
    decreases s.len(),
{
    if s.len() > 0 && s.last() != c {
        let rest = s.drop_last();
        lemma_last_index(rest, c);
        match last_index(rest, c) {
            Some(i) => {
                assert forall|j: int| i < j < s.len() implies s[j] != c by {
                    if j < rest.len() {
                        assert(rest[j] == s[j]);
                    }
                }
            },
            None => {
                assert forall|j: int| 0 <= j < s.len() implies s[j] != c by {
                    if j < rest.len() {
                        assert(rest[j] == s[j]);
                    }
                }
            },
        }
    }
}

/// Stripping the front leaves a suffix of the text.
pub proof fn lemma_strip_start_is_suffix(s: Seq<char>, class: CharClass) -> (a: int)
    ensures
        0 <= a <= s.len(),
        strip_start(s, class) == s.subrange(a, s.len() as int),
    decreases s.len(),
{
    if s.len() > 0 && class.has(s[0]) {
        let rest = s.drop_first();
        let k = lemma_strip_start_is_suffix(rest, class);
        assert(rest.subrange(k, rest.len() as int) =~= s.subrange(k + 1, s.len() as int));
        k + 1
    } else {
        assert(s.subrange(0, s.len() as int) =~= s);
        0
    }
}

/// Stripping the back leaves a prefix of the text.
pub proof fn lemma_strip_end_is_prefix(s: Seq<char>, class: CharClass) -> (b: int)
    ensures
        0 <= b <= s.len(),
        strip_end(s, class) == s.subrange(0, b),
    decreases s.len(),
{
    if s.len() > 0 && class.has(s.last()) {
        let rest = s.drop_last();
        let k = lemma_strip_end_is_prefix(rest, class);
        assert(rest.subrange(0, k) =~= s.subrange(0, k));
        k
    } else {
        assert(s.subrange(0, s.len() as int) =~= s);
        s.len() as int
    }
}

/// Stripping both ends leaves a contiguous part of the text.
pub proof fn lemma_strip_is_part(s: Seq<char>, class: CharClass) -> (bounds: (int, int))
    ensures
        0 <= bounds.0 <= bounds.1 <= s.len(),
        strip(s, class) == s.subrange(bounds.0, bounds.1),
{
    let a = lemma_strip_start_is_suffix(s, class);
    let front = s.subrange(a, s.len() as int);
    let b = lemma_strip_end_is_prefix(front, class);
    assert(front.subrange(0, b) =~= s.subrange(a, a + b));
    (a, a + b)
}

/// What stripping the front leaves does not begin with a character of the class.
pub proof fn lemma_strip_start_edge(s: Seq<char>, class: CharClass)
    ensures
        strip_start(s, class).len() > 0 ==> !class.has(strip_start(s, class)[0]),
    decreases s.len(),
{
    if s.len() > 0 && class.has(s[0]) {
        lemma_strip_start_edge(s.drop_first(), class);
    }
}

/// What stripping the back leaves does not end with a character of the class.
pub proof fn lemma_strip_end_edge(s: Seq<char>, class: CharClass)
    ensures
        strip_end(s, class).len() > 0 ==> !class.has(strip_end(s, class).last()),
    decreases s.len(),
{
    if s.len() > 0 && class.has(s.last()) {
        lemma_strip_end_edge(s.drop_last(), class);
    }
}

/// What stripping leaves neither begins nor ends with a character of the class.
pub proof fn lemma_strip_edges(s: Seq<char>, class: CharClass)
    ensures
        strip(s, class).len() > 0 ==> !class.has(strip(s, class)[0]) && !class.has(
            strip(s, class).last(),
        ),
{
    let front = strip_start(s, class);
    lemma_strip_start_edge(s, class);
    lemma_strip_end_edge(front, class);
    lemma_strip_end_is_prefix(front, class);
}

/// A text that neither begins nor ends with a character of the class is left as it is.
pub proof fn lemma_strip_unchanged(s: Seq<char>, class: CharClass)
    requires
        s.len() > 0 ==> !class.has(s[0]) && !class.has(s.last()),
    ensures
        strip(s, class) == s,
{
}

/// Stripping twice is stripping once.
pub proof fn lemma_strip_idempotent(s: Seq<char>, class: CharClass)
    ensures
        strip(strip(s, class), class) == strip(s, class),
{
    lemma_strip_edges(s, class);
    lemma_strip_unchanged(strip(s, class), class);
}

/// `String::push`: appends one character to the end of the text.
#[verifier::external_body]
fn push_char(text: &mut String, c: char)
    ensures
        final(text)@ == old(text)@.push(c),
{
    text.push(c)
}

/// The characters of a text, in order.
pub fn chars_of(text: &str) -> (chars: Vec<char>)
    ensures
        chars@ == text@,
{
    let mut chars: Vec<char> = Vec::new();
    let it = text.chars();
    for c in iter: it
        invariant
            chars@ == iter.seq().take(iter.index() as int),
            iter.seq() == text@,
    {
        chars.push(c);
    }
    chars
}

/// The text made of `chars[lo..hi]`.
pub fn string_of(chars: &Vec<char>, lo: usize, hi: usize) -> (text: String)
    requires
        lo <= hi <= chars.len(),
    ensures
        text@ == chars@.subrange(lo as int, hi as int),
{
    let mut text = String::new();
    let mut i: usize = lo;
    while i < hi
        invariant
            lo <= i <= hi <= chars.len(),
            text@ == chars@.subrange(lo as int, i as int),
        decreases hi - i,
    {
        push_char(&mut text, chars[i]);
        i += 1;
    }
    text
}

/// Appends `chars[lo..hi]` to a text.
pub fn push_chars(text: &mut String, chars: &Vec<char>, lo: usize, hi: usize)
    requires
        lo <= hi <= chars.len(),
    ensures
        final(text)@ == old(text)@ + chars@.subrange(lo as int, hi as int),
{
    let mut i: usize = lo;
    while i < hi
        invariant
            lo <= i <= hi <= chars.len(),
            text@ == old(text)@ + chars@.subrange(lo as int, i as int),
        decreases hi - i,
    {
        push_char(text, chars[i]);
        i += 1;
    }
}

/// The bounds of `chars[lo..hi]` once the characters of `class` are stripped from both ends.
pub fn strip_bounds(chars: &Vec<char>, lo: usize, hi: usize, class: CharClass) -> (bounds: (
    usize,
    usize,
))
    requires
        lo <= hi <= chars.len(),
    ensures
        lo <= bounds.0 <= bounds.1 <= hi,
        chars@.subrange(bounds.0 as int, bounds.1 as int) == strip(
            chars@.subrange(lo as int, hi as int),
            class,
        ),
{
    let ghost s = chars@.subrange(lo as int, hi as int);
    let mut a: usize = lo;
    while a < hi && class.contains(chars[a])
        invariant
            lo <= a <= hi <= chars.len(),
            forall|i: int| lo <= i < a ==> class.has(chars@[i]),
        decreases hi - a,
    {
        a += 1;
    }
    let mut b: usize = hi;
    while b > a && class.contains(chars[b - 1])
        invariant
            a <= b <= hi <= chars.len(),
            forall|i: int| b <= i < hi ==> class.has(chars@[i]),
        decreases b,
    {
        b -= 1;
    }
    proof {
        lemma_strip_start(s, class, a - lo);
        let t = s.subrange(a - lo, s.len() as int);
        assert(t =~= chars@.subrange(a as int, hi as int));
        lemma_strip_end(t, class, b - a);
        assert(t.subrange(0, b - a) =~= chars@.subrange(a as int, b as int));
    }
    (a, b)
}

/// Finds the first `c` in `chars[lo..hi]`, as an index into `chars`.
pub fn find_first(chars: &Vec<char>, lo: usize, hi: usize, c: char) -> (found: Option<usize>)
    requires
        lo <= hi <= chars.len(),
    ensures
        match found {
            Some(i) => lo <= i < hi && first_index(chars@.subrange(lo as int, hi as int), c)
                == Some(i - lo),
            None => first_index(chars@.subrange(lo as int, hi as int), c).is_none(),
        },
{
    let ghost s = chars@.subrange(lo as int, hi as int);
    let mut i: usize = lo;
    while i < hi
        invariant
            lo <= i <= hi <= chars.len(),
            s == chars@.subrange(lo as int, hi as int),
            forall|j: int| 0 <= j < i - lo ==> s[j] != c,
        decreases hi - i,
    {
        if chars[i] == c {
            proof {
                assert(s[i - lo] == c);
                lemma_first_index(s, c);
            }
            return Some(i);
        }
        i += 1;
    }
    proof {
        lemma_first_index(s, c);
    }
    None
}

/// Finds the last `c` in `chars[lo..hi]`, as an index into `chars`.
pub fn find_last(chars: &Vec<char>, lo: usize, hi: usize, c: char) -> (found: Option<usize>)
    requires
        lo <= hi <= chars.len(),
    ensures
        match found {
            Some(i) => lo <= i < hi && last_index(chars@.subrange(lo as int, hi as int), c)
                == Some(i - lo),
            None => last_index(chars@.subrange(lo as int, hi as int), c).is_none(),
        },
{
    let ghost s = chars@.subrange(lo as int, hi as int);
    let mut i: usize = hi;
    while i > lo
        invariant
            lo <= i <= hi <= chars.len(),
            s == chars@.subrange(lo as int, hi as int),
            forall|j: int| i - lo <= j < s.len() ==> s[j] != c,
        decreases i,
    {
        i -= 1;
        if chars[i] == c {
            proof {
                assert(s[i - lo] == c);
                lemma_last_index(s, c);
            }
            return Some(i);
        }
    }
    proof {
        lemma_last_index(s, c);
    }
    None
}

/// Whether `chars[at..hi]` begins with `pattern`.
pub fn has_prefix_at(chars: &Vec<char>, at: usize, hi: usize, pattern: &Vec<char>) -> (found: bool)
    requires
        at <= hi <= chars.len(),
    ensures
        found == pattern@.is_prefix_of(chars@.subrange(at as int, hi as int)),
{
    let ghost s = chars@.subrange(at as int, hi as int);
    if pattern.len() > hi - at {
        return false;
    }
    let mut k: usize = 0;
    while k < pattern.len()
        invariant
            at <= hi <= chars.len(),
            k <= pattern.len() <= hi - at,
            s == chars@.subrange(at as int, hi as int),
            forall|j: int| 0 <= j < k ==> s[j] == pattern@[j],
        decreases pattern.len() - k,
    {
        if chars[at + k] != pattern[k] {
            assert(s[k as int] != pattern@[k as int]);
            assert(s.subrange(0, pattern@.len() as int)[k as int] == s[k as int]);
            return false;
        }
        k += 1;
    }
    assert(s.subrange(0, pattern@.len() as int) =~= pattern@);
    true
}

} // verus!
