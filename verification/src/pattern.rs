//! Byte patterns with wildcards, written as text such as `"55 8B EC ?? ?? 56"`,
//! and the search for them in a memory image.
use vstd::prelude::*;
use vstd::string::StringSliceAdditionalSpecFns;

verus! {

/// The value of an ASCII hexadecimal digit, upper or lower case.
pub open spec fn hex_digit_value(c: u8) -> Option<u8> {
    if 0x30 <= c <= 0x39 {
        Some((c - 0x30) as u8)
    } else if 0x41 <= c <= 0x46 {
        Some((c - 0x37) as u8)
    } else if 0x61 <= c <= 0x66 {
        Some((c - 0x57) as u8)
    } else {
        None
    }
}

/// A two-character token: `??` is a wildcard, two hexadecimal digits are a byte.
pub open spec fn parse_token(a: u8, b: u8) -> Option<Option<u8>> {
    if a == 0x3F && b == 0x3F {
        Some(None)
    } else {
        match (hex_digit_value(a), hex_digit_value(b)) {
            (Some(high), Some(low)) => Some(Some((high * 16 + low) as u8)),
            _ => None,
        }
    }
}

/// Parses the tokens of `text` starting at byte `i`: tokens are two characters
/// long and separated by single spaces, with nothing after the last one.
pub open spec fn parse_pattern_from(text: Seq<u8>, i: int) -> Option<Seq<Option<u8>>>
    decreases text.len() - i,
{
    if i < 0 || i + 2 > text.len() {
        None
    } else {
        match parse_token(text[i], text[i + 1]) {
            None => None,
            Some(token) => if i + 2 == text.len() {
                Some(seq![token])
            } else if text[i + 2] == 0x20 && i + 3 < text.len() {
                match parse_pattern_from(text, i + 3) {
                    Some(rest) => Some(seq![token] + rest),
                    None => None,
                }
            } else {
                None
            },
        }
    }
}

/// The pattern that `text` denotes, if it is well formed; the empty text is the empty pattern.
pub open spec fn parse_pattern(text: Seq<u8>) -> Option<Seq<Option<u8>>> {
    if text.len() == 0 {
        Some(seq![])
    } else {
        parse_pattern_from(text, 0)
    }
}

/// `pattern` occurs in `memory` at `offset`: every byte that is not a wildcard agrees.
pub open spec fn matches_at(memory: Seq<u8>, pattern: Seq<Option<u8>>, offset: int) -> bool {
    &&& 0 <= offset
    &&& offset + pattern.len() <= memory.len()
    &&& forall|j: int|
        0 <= j < pattern.len() ==> (#[trigger] pattern[j] is None || pattern[j] == Some(
            memory[offset + j],
        ))
}

/// The least offset not below `start` at which `pattern` occurs in `memory`.
pub open spec fn first_match_from(memory: Seq<u8>, pattern: Seq<Option<u8>>, start: int) -> Option<
    int,
>
    decreases memory.len() - start,
{
    if start < 0 || start + pattern.len() > memory.len() {
        None
    } else if matches_at(memory, pattern, start) {
        Some(start)
    } else {
        first_match_from(memory, pattern, start + 1)
    }
}

/// The least offset at which `pattern` occurs in `memory`.
pub open spec fn first_match(memory: Seq<u8>, pattern: Seq<Option<u8>>) -> Option<int> {
    first_match_from(memory, pattern, 0)
}

/// Among `patterns`, from position `i` on, the first that occurs in `memory`,
/// as (offset of its first occurrence, its position); an entry that is `None`
/// (a text that did not parse) never occurs.
pub open spec fn find_patterns_from(
    memory: Seq<u8>,
    patterns: Seq<Option<Seq<Option<u8>>>>,
    i: int,
) -> Option<(int, int)>
    decreases patterns.len() - i,
{
    if i < 0 || i >= patterns.len() {
        None
    } else {
        match patterns[i] {
            Some(pattern) => match first_match(memory, pattern) {
                Some(offset) => Some((offset, i)),
                None => find_patterns_from(memory, patterns, i + 1),
            },
            None => find_patterns_from(memory, patterns, i + 1),
        }
    }
}

/// The first of `patterns` (in their order) that occurs in `memory`, with the
/// offset of its first occurrence and its position in the list.
pub open spec fn find_patterns(memory: Seq<u8>, patterns: Seq<Option<Seq<Option<u8>>>>) -> Option<
    (int, int),
> {
    find_patterns_from(memory, patterns, 0)
}

/// What `first_match_from` gives back: an occurrence, with none before it.
pub proof fn lemma_first_match_from(memory: Seq<u8>, pattern: Seq<Option<u8>>, start: int)
    requires
        0 <= start,
    ensures
        first_match_from(memory, pattern, start) matches Some(o) ==> {
            &&& start <= o
            &&& matches_at(memory, pattern, o)
            &&& forall|k: int| start <= k < o ==> !matches_at(memory, pattern, k)
        },
        first_match_from(memory, pattern, start) is None ==> forall|k: int|
            start <= k ==> !matches_at(memory, pattern, k),
    decreases memory.len() - start,
{
    if start + pattern.len() > memory.len() {
    } else if matches_at(memory, pattern, start) {
    } else {
        lemma_first_match_from(memory, pattern, start + 1);
        assert forall|k: int| start <= k && k < start + 1 implies !matches_at(
            memory,
            pattern,
            k,
        ) by {
            assert(k == start);
        }
    }
}

/// The first occurrence of a pattern is an occurrence, and no earlier offset is one;
/// where there is none, the pattern occurs nowhere.
pub proof fn lemma_first_match(memory: Seq<u8>, pattern: Seq<Option<u8>>)
    ensures
        first_match(memory, pattern) matches Some(o) ==> {
            &&& matches_at(memory, pattern, o)
            &&& forall|k: int| 0 <= k < o ==> !matches_at(memory, pattern, k)
        },
        first_match(memory, pattern) is None ==> forall|k: int|
            !matches_at(memory, pattern, k),
{
    lemma_first_match_from(memory, pattern, 0);
}


/// What `find_patterns_from` gives back: a pattern at or after position `i`
/// that occurs, at its first occurrence, with no pattern between `i` and it
/// occurring anywhere.
pub proof fn lemma_find_patterns_from(
    memory: Seq<u8>,
    patterns: Seq<Option<Seq<Option<u8>>>>,
    i: int,
)
    requires
        0 <= i,
    ensures
        find_patterns_from(memory, patterns, i) matches Some((o, k)) ==> {
            &&& i <= k < patterns.len()
            &&& patterns[k] is Some
            &&& first_match(memory, patterns[k]->Some_0) == Some(o)
            &&& matches_at(memory, patterns[k]->Some_0, o)
            &&& forall|j: int, off: int|
                i <= j < k && patterns[j] is Some ==> !#[trigger] matches_at(
                    memory,
                    patterns[j]->Some_0,
                    off,
                )
        },
        find_patterns_from(memory, patterns, i) is None ==> forall|j: int, off: int|
            i <= j < patterns.len() && patterns[j] is Some ==> !#[trigger] matches_at(
                memory,
                patterns[j]->Some_0,
                off,
            ),
    decreases patterns.len() - i,
{
    if i < patterns.len() {
        lemma_find_patterns_from(memory, patterns, i + 1);
        if let Some(pattern) = patterns[i] {
            lemma_first_match(memory, pattern);
        }
    }
}

/// The patterns are tried in order: the one found is the first of the list
/// that occurs anywhere in the memory, and it is found at its first occurrence;
/// where none is found, none occurs.
pub proof fn lemma_find_patterns(memory: Seq<u8>, patterns: Seq<Option<Seq<Option<u8>>>>)
    ensures
        find_patterns(memory, patterns) matches Some((o, k)) ==> {
            &&& 0 <= k < patterns.len()
            &&& patterns[k] is Some
            &&& matches_at(memory, patterns[k]->Some_0, o)
            &&& forall|off: int| 0 <= off < o ==> !matches_at(memory, patterns[k]->Some_0, off)
            &&& forall|j: int, off: int|
                0 <= j < k && patterns[j] is Some ==> !#[trigger] matches_at(
                    memory,
                    patterns[j]->Some_0,
                    off,
                )
        },
        find_patterns(memory, patterns) is None ==> forall|j: int, off: int|
            0 <= j < patterns.len() && patterns[j] is Some ==> !#[trigger] matches_at(
                memory,
                patterns[j]->Some_0,
                off,
            ),
{
    lemma_find_patterns_from(memory, patterns, 0);
    if let Some((o, k)) = find_patterns(memory, patterns) {
        lemma_first_match(memory, patterns[k]->Some_0);
    }
}

/// The upper-case hexadecimal digit character of `d`, for `d` below 16.
pub open spec fn upper_hex_char(d: int) -> u8 {
    if d < 10 {
        (0x30 + d) as u8
    } else {
        (0x41 + d - 10) as u8
    }
}

/// The lower-case hexadecimal digit character of `d`, for `d` below 16.
pub open spec fn lower_hex_char(d: int) -> u8 {
    if d < 10 {
        (0x30 + d) as u8
    } else {
        (0x61 + d - 10) as u8
    }
}

/// A token is a wildcard exactly when it is `??`; the two hexadecimal digits
/// of any byte, in upper or lower case, stand for that byte itself (so `00`
/// is the byte zero, not a wildcard).
pub proof fn lemma_tokens(b: u8, x: u8, y: u8)
    ensures
        parse_token(x, y) == Some(None::<u8>) <==> (x == 0x3F && y == 0x3F),
        parse_token(upper_hex_char(b as int / 16), upper_hex_char(b as int % 16)) == Some(Some(b)),
        parse_token(lower_hex_char(b as int / 16), lower_hex_char(b as int % 16)) == Some(Some(b)),
{
    let h = b as int / 16;
    let l = b as int % 16;
    assert(h * 16 + l == b);
    assert(0 <= h < 16 && 0 <= l < 16);
    assert(hex_digit_value(upper_hex_char(h)) == Some(h as u8));
    assert(hex_digit_value(upper_hex_char(l)) == Some(l as u8));
    assert(hex_digit_value(lower_hex_char(h)) == Some(h as u8));
    assert(hex_digit_value(lower_hex_char(l)) == Some(l as u8));
}

/// A one-token text is the one-byte pattern of that token.
pub proof fn lemma_single_token(x: u8, y: u8)
    ensures
        parse_pattern(seq![x, y]) == (match parse_token(x, y) {
            Some(t) => Some(seq![t]),
            None => None,
        }),
{
}

/// A pattern occurs at an offset exactly when it lies inside the memory and
/// every byte of it that is not a wildcard, the first one included, equals
/// the memory byte at the same position. In particular the first occurrence
/// agrees with the memory in every fixed byte.
pub proof fn lemma_occurrence_agrees(memory: Seq<u8>, pattern: Seq<Option<u8>>, offset: int)
    ensures
        matches_at(memory, pattern, offset) <==> (0 <= offset && offset + pattern.len()
            <= memory.len() && forall|j: int|
            0 <= j < pattern.len() && #[trigger] pattern[j] is Some ==> pattern[j]->Some_0
                == memory[offset + j]),
        first_match(memory, pattern) == Some(offset) ==> forall|j: int|
            0 <= j < pattern.len() && #[trigger] pattern[j] is Some ==> pattern[j]->Some_0
                == memory[offset + j],
{
    if matches_at(memory, pattern, offset) {
        assert forall|j: int|
            0 <= j < pattern.len() && #[trigger] pattern[j] is Some implies pattern[j]->Some_0
            == memory[offset + j] by {
            assert(pattern[j] is None || pattern[j] == Some(memory[offset + j]));
        }
    }
    if 0 <= offset && offset + pattern.len() <= memory.len() && forall|j: int|
        0 <= j < pattern.len() && #[trigger] pattern[j] is Some ==> pattern[j]->Some_0
            == memory[offset + j] {
        assert forall|j: int| 0 <= j < pattern.len() implies (#[trigger] pattern[j] is None
            || pattern[j] == Some(memory[offset + j])) by {
            if pattern[j] is Some {
                assert(pattern[j]->Some_0 == memory[offset + j]);
            }
        }
    }
    lemma_first_match(memory, pattern);
}

spec fn prepend(prefix: Seq<Option<u8>>, rest: Option<Seq<Option<u8>>>) -> Option<
    Seq<Option<u8>>,
> {
    match rest {
        Some(s) => Some(prefix + s),
        None => None,
    }
}

fn hex_digit(c: u8) -> (r: Option<u8>)
    ensures
        r == hex_digit_value(c),
{
    if 0x30 <= c && c <= 0x39 {
        Some(c - 0x30)
    } else if 0x41 <= c && c <= 0x46 {
        Some(c - 0x37)
    } else if 0x61 <= c && c <= 0x66 {
        Some(c - 0x57)
    } else {
        None
    }
}

fn token(a: u8, b: u8) -> (r: Option<Option<u8>>)
    ensures
        r == parse_token(a, b),
{
    if a == 0x3F && b == 0x3F {
        return Some(None);
    }
    match (hex_digit(a), hex_digit(b)) {
        (Some(high), Some(low)) => Some(Some(high * 16 + low)),
        _ => None,
    }
}

/// A byte pattern: a sequence of bytes, some of them wildcards.
pub struct Pattern {
    bytes: Vec<Option<u8>>,
}

impl View for Pattern {
    type V = Seq<Option<u8>>;

    closed spec fn view(&self) -> Seq<Option<u8>> {
        self.bytes@
    }
}

impl Pattern {
    /// Parses a pattern written as two-character tokens separated by single spaces,
    /// each token `??` (any byte) or two hexadecimal digits.
    pub fn parse(text: &str) -> (r: Option<Pattern>)
        ensures
            r matches Some(p) ==> parse_pattern(text.spec_bytes()) == Some(p@),
            r is None ==> parse_pattern(text.spec_bytes()) is None,
    {
        let bytes = text.as_bytes();
        let n = bytes.len();
        if n == 0 {
            let p = Pattern { bytes: Vec::new() };
            assert(p@ =~= seq![]);
            return Some(p);
        }
        let mut out: Vec<Option<u8>> = Vec::new();
        let mut i: usize = 0;
        loop
            invariant
                n == bytes@.len(),
                bytes@ == text.spec_bytes(),
                i < n,
                parse_pattern(bytes@) == prepend(out@, parse_pattern_from(bytes@, i as int)),
            decreases n - i,
        {
            if n - i < 2 {
                return None;
            }
            let t = match token(bytes[i], bytes[i + 1]) {
                Some(t) => t,
                None => {
                    return None;
                },
            };
            if i + 2 == n {
                out.push(t);
                let p = Pattern { bytes: out };
                return Some(p);
            }
            if bytes[i + 2] == 0x20 && i + 3 < n {
                proof {
                    let rest = parse_pattern_from(bytes@, i + 3);
                    if let Some(s) = rest {
                        assert(out@ + (seq![t] + s) =~= out@.push(t) + s);
                    }
                }
                out.push(t);
                i = i + 3;
            } else {
                return None;
            }
        }
    }

    /// The offset of the first occurrence of this pattern in `memory`.
    pub fn find(&self, memory: &[u8]) -> (r: Option<usize>)
        ensures
            r matches Some(o) ==> first_match(memory@, self@) == Some(o as int) && o + self@.len()
                <= memory@.len(),
            r is None ==> first_match(memory@, self@) is None,
    {
        let n = memory.len();
        let m = self.bytes.len();
        if m > n {
            return None;
        }
        let mut offset: usize = 0;
        while offset <= n - m
            invariant
                n == memory@.len(),
                m == self@.len(),
                m <= n,
                offset <= n - m + 1,
                first_match(memory@, self@) == first_match_from(memory@, self@, offset as int),
            decreases n - m + 1 - offset,
        {
            if self.matches_at(memory, offset) {
                return Some(offset);
            }
            offset = offset + 1;
        }
        None
    }

    /// Whether this pattern occurs in `memory` at `offset`.
    pub fn matches_at(&self, memory: &[u8], offset: usize) -> (r: bool)
        ensures
            r == matches_at(memory@, self@, offset as int),
    {
        let m = self.bytes.len();
        let len = memory.len();
        if offset > len || len - offset < m {
            return false;
        }
        let mut j: usize = 0;
        while j < m
            invariant
                m == self@.len(),
                len == memory@.len(),
                offset + m <= len,
                j <= m,
                forall|k: int|
                    0 <= k < j ==> (#[trigger] self@[k] is None || self@[k] == Some(
                        memory@[offset + k],
                    )),
            decreases m - j,
        {
            match self.bytes[j] {
                Some(b) => {
                    if memory[offset + j] != b {
                        return false;
                    }
                },
                None => {},
            }
            j = j + 1;
        }
        true
    }
}

/// A list of alternative patterns for one location (one per known build), in
/// order of preference; an entry is `None` where its text did not parse.
pub struct Patterns {
    entries: Vec<Option<Pattern>>,
}

/// The view of an optional pattern.
pub open spec fn option_pattern_view(p: Option<Pattern>) -> Option<Seq<Option<u8>>> {
    match p {
        Some(p) => Some(p@),
        None => None,
    }
}

impl View for Patterns {
    type V = Seq<Option<Seq<Option<u8>>>>;

    closed spec fn view(&self) -> Seq<Option<Seq<Option<u8>>>> {
        self.entries@.map_values(|p: Option<Pattern>| option_pattern_view(p))
    }
}

/// The patterns that a list of texts denotes, position by position.
pub open spec fn parse_patterns(texts: Seq<&str>) -> Seq<Option<Seq<Option<u8>>>> {
    texts.map_values(|t: &str| parse_pattern(t.spec_bytes()))
}

impl Patterns {
    /// Parses each text into a pattern, keeping the positions.
    pub fn from_texts(texts: &Vec<&str>) -> (r: Patterns)
        ensures
            r@ == parse_patterns(texts@),
    {
        let mut entries: Vec<Option<Pattern>> = Vec::new();
        let mut i: usize = 0;
        while i < texts.len()
            invariant
                i <= texts@.len(),
                entries@.len() == i,
                forall|k: int|
                    0 <= k < i ==> option_pattern_view(#[trigger] entries@[k]) == parse_pattern(
                        texts@[k].spec_bytes(),
                    ),
            decreases texts@.len() - i,
        {
            let p = Pattern::parse(texts[i]);
            entries.push(p);
            i = i + 1;
        }
        let r = Patterns { entries };
        assert(r@ =~= parse_patterns(texts@));
        r
    }

    /// The number of entries.
    pub fn len(&self) -> (r: usize)
        ensures
            r == self@.len(),
    {
        self.entries.len()
    }

    /// The first pattern (in order) that occurs in `memory`, as the offset of its
    /// first occurrence and its position in the list.
    pub fn find(&self, memory: &[u8]) -> (r: Option<(usize, usize)>)
        ensures
            r matches Some((offset, index)) ==> find_patterns(memory@, self@) == Some(
                (offset as int, index as int),
            ) && offset <= memory@.len() && index < self@.len(),
            r is None ==> find_patterns(memory@, self@) is None,
    {
        let mut i: usize = 0;
        while i < self.entries.len()
            invariant
                i <= self@.len(),
                self@.len() == self.entries@.len(),
                find_patterns(memory@, self@) == find_patterns_from(memory@, self@, i as int),
            decreases self@.len() - i,
        {
            assert(self@[i as int] == option_pattern_view(self.entries@[i as int]));
            match &self.entries[i] {
                Some(p) => {
                    match p.find(memory) {
                        Some(offset) => {
                            return Some((offset, i));
                        },
                        None => {},
                    }
                },
                None => {},
            }
            i = i + 1;
        }
        None
    }
}

} // verus!
