use vstd::prelude::*;
use vstd::string::*;

verus! {

/// `String::push` of the standard library: the char is added at the end and
/// nothing else changes.
pub assume_specification[ String::push ](s: &mut String, c: char)
    ensures
        final(s)@ == old(s)@.push(c),
;

/// A class of chars that a scan can run over.
#[derive(Clone, Copy, Debug, PartialEq, Eq, Structural)]
pub enum CharClass {
    /// The decimal digits `0` to `9`.
    Digit,
    /// Everything but a decimal digit.
    NonDigit,
    /// White space as Unicode defines it.
    Space,
    /// Everything but a line feed.
    LineBody,
}

/// Whether `c` is one of the decimal digits `0` to `9`.
pub open spec fn is_digit(c: char) -> bool {
    '0' <= c && c <= '9'
}

/// Whether `c` is white space as Unicode defines it.
pub open spec fn is_space(c: char) -> bool {
    ||| ('\u{9}' <= c && c <= '\u{d}')
    ||| c == ' '
    ||| c == '\u{85}'
    ||| c == '\u{a0}'
    ||| c == '\u{1680}'
    ||| ('\u{2000}' <= c && c <= '\u{200a}')
    ||| c == '\u{2028}'
    ||| c == '\u{2029}'
    ||| c == '\u{202f}'
    ||| c == '\u{205f}'
    ||| c == '\u{3000}'
}

/// `c` with the letters `A` to `Z` turned into `a` to `z`.
pub open spec fn fold(c: char) -> char {
    if 'A' <= c && c <= 'Z' {
        ((c as u8 + 32) as u8) as char
    } else {
        c
    }
}

/// `s` with the letters `A` to `Z` turned into `a` to `z`.
pub open spec fn folded(s: Seq<char>) -> Seq<char> {
    Seq::new(s.len(), |i: int| fold(s[i]))
}

impl CharClass {
    /// Whether `c` belongs to the class.
    pub open spec fn holds(self, c: char) -> bool {
        match self {
            CharClass::Digit => is_digit(c),
            CharClass::NonDigit => !is_digit(c),
            CharClass::Space => is_space(c),
            CharClass::LineBody => c != '\n',
        }
    }

    /// Tests whether `c` belongs to the class.
    pub fn test(self, c: char) -> (b: bool)
        ensures
            b == self.holds(c),
    {
        match self {
            CharClass::Digit => '0' <= c && c <= '9',
            CharClass::NonDigit => !('0' <= c && c <= '9'),
            CharClass::Space => {
                ('\u{9}' <= c && c <= '\u{d}') || c == ' ' || c == '\u{85}' || c == '\u{a0}' || c
                    == '\u{1680}' || ('\u{2000}' <= c && c <= '\u{200a}') || c == '\u{2028}' || c
                    == '\u{2029}' || c == '\u{202f}' || c == '\u{205f}' || c == '\u{3000}'
            },
            CharClass::LineBody => c != '\n',
        }
    }
}

/// How many chars at the start of `s` belong to `class`, up to the first one
/// that does not.
pub open spec fn run_len(s: Seq<char>, class: CharClass) -> nat
    decreases s.len(),
{
    if s.len() == 0 || !class.holds(s[0]) {
        0
    } else {
        1 + run_len(s.drop_first(), class)
    }
}

/// How many chars at the end of `s` belong to `class`, back to the last one
/// that does not.
pub open spec fn tail_len(s: Seq<char>, class: CharClass) -> nat
    decreases s.len(),
{
    if s.len() == 0 || !class.holds(s.last()) {
        0
    } else {
        1 + tail_len(s.drop_last(), class)
    }
}

/// `s` without the white space at its start and at its end.
pub open spec fn trimmed(s: Seq<char>) -> Seq<char> {
    let rest = s.skip(run_len(s, CharClass::Space) as int);
    rest.take(rest.len() - tail_len(rest, CharClass::Space))
}

/// Whether `needle` stands in `hay` at offset `at`, the letters of `hay`
/// taken without regard to case.
pub open spec fn matches_at(hay: Seq<char>, at: int, needle: Seq<char>) -> bool {
    &&& 0 <= at
    &&& at + needle.len() <= hay.len()
    &&& forall|j: int| 0 <= j < needle.len() ==> fold(#[trigger] hay[at + j]) == needle[j]
}

/// Whether `needle`, given in lower case, occurs in `hay` without regard to
/// the case of `hay`'s letters.
pub open spec fn mentions(hay: Seq<char>, needle: Seq<char>) -> bool {
    exists|at: int| matches_at(hay, at, needle)
}

/// The lines of `s`: the stretches between line feeds. A line feed at the
/// very end opens no further line, and the empty text has no line. A carriage
/// return before a line feed stays in its line.
pub open spec fn lines_of(s: Seq<char>) -> Seq<Seq<char>>
    decreases s.len(),
{
    if s.len() == 0 {
        Seq::empty()
    } else {
        let n = run_len(s, CharClass::LineBody) as int;
        if n < s.len() {
            seq![s.take(n)] + lines_of(s.skip(n + 1))
        } else {
            seq![s]
        }
    }
}

/// Where the first number of `s` begins and ends: the first run of digits,
/// and, where a point follows it directly, that point and the digits after
/// it. `None` where `s` holds no digit.
pub open spec fn number_span(s: Seq<char>) -> Option<(int, int)> {
    let start = run_len(s, CharClass::NonDigit) as int;
    if start >= s.len() {
        None
    } else {
        let whole_end = start + run_len(s.skip(start), CharClass::Digit);
        if whole_end < s.len() && s[whole_end] == '.' {
            Some((start, whole_end + 1 + run_len(s.skip(whole_end + 1), CharClass::Digit)))
        } else {
            Some((start, whole_end))
        }
    }
}

/// The first number of `s` as text, `None` where `s` holds no digit.
pub open spec fn extract_number_spec(s: Seq<char>) -> Option<Seq<char>> {
    match number_span(s) {
        Some((start, end)) => Some(s.subrange(start, end)),
        None => None,
    }
}

/// A run that is known char by char has the length that the chars give.
pub proof fn lemma_run_len(s: Seq<char>, class: CharClass, n: int)
    requires
        0 <= n <= s.len(),
        forall|j: int| 0 <= j < n ==> class.holds(#[trigger] s[j]),
        n == s.len() || !class.holds(s[n]),
    ensures
        run_len(s, class) == n,
    decreases n,
{
    if n > 0 {
        let rest = s.drop_first();
        assert forall|j: int| 0 <= j < n - 1 implies class.holds(#[trigger] rest[j]) by {
            assert(rest[j] == s[j + 1]);
        }
        lemma_run_len(rest, class, n - 1);
    }
}

/// A run ends inside the text, consists of the class, and stops at a char
/// outside the class or at the end.
pub proof fn lemma_run_len_bounds(s: Seq<char>, class: CharClass)
    ensures
        run_len(s, class) <= s.len(),
        forall|j: int| 0 <= j < run_len(s, class) ==> class.holds(#[trigger] s[j]),
        run_len(s, class) == s.len() || !class.holds(s[run_len(s, class) as int]),
    decreases s.len(),
{
    if s.len() > 0 && class.holds(s[0]) {
        let rest = s.drop_first();
        lemma_run_len_bounds(rest, class);
        assert forall|j: int| 0 <= j < run_len(s, class) implies class.holds(#[trigger] s[j]) by {
            if j > 0 {
                assert(s[j] == rest[j - 1]);
            }
        }
        if run_len(s, class) < s.len() {
            assert(s[run_len(s, class) as int] == rest[run_len(rest, class) as int]);
        }
    }
}

/// A run at the end that is known char by char has the length that the chars
/// give.
pub proof fn lemma_tail_len(s: Seq<char>, class: CharClass, n: int)
    requires
        0 <= n <= s.len(),
        forall|j: int| s.len() - n <= j < s.len() ==> class.holds(#[trigger] s[j]),
        n == s.len() || !class.holds(s[s.len() - n - 1]),
    ensures
        tail_len(s, class) == n,
    decreases n,
{
    if n > 0 {
        let rest = s.drop_last();
        assert forall|j: int| rest.len() - (n - 1) <= j < rest.len() implies class.holds(
            #[trigger] rest[j],
        ) by {
            assert(rest[j] == s[j]);
        }
        lemma_tail_len(rest, class, n - 1);
    }
}

/// The chars of `s`, one by one.
pub fn to_chars(s: &str) -> (chars: Vec<char>)
    ensures
        chars@ == s@,
{
    let mut chars: Vec<char> = Vec::new();
    for c in it: s.chars()
        invariant
            it.seq() == s@,
            chars@ == s@.take(it.index()),
    {
        chars.push(c);
        assert(s@.take(it.index() + 1) == s@.take(it.index()).push(c));
    }
    assert(s@.take(s@.len() as int) == s@);
    chars
}

/// `c` with the letters `A` to `Z` turned into `a` to `z`.
pub fn fold_char(c: char) -> (r: char)
    ensures
        r == fold(c),
{
    if 'A' <= c && c <= 'Z' {
        ((c as u8) + 32) as char
    } else {
        c
    }
}

/// The three texts in a row, as one.
pub fn join3(first: &str, second: &str, third: &str) -> (joined: String)
    ensures
        joined@ == first@ + second@ + third@,
{
    let mut joined = String::from_str(first);
    joined.append(second);
    joined.append(third);
    joined
}

/// Whether the two texts are the same, char by char.
pub fn equals(a: &str, b: &str) -> (same: bool)
    ensures
        same == (a@ == b@),
{
    let left = to_chars(a);
    let right = to_chars(b);
    if left.len() != right.len() {
        return false;
    }
    let mut i: usize = 0;
    while i < left.len()
        invariant
            i <= left.len(),
            left.len() == right.len(),
            left@ == a@,
            right@ == b@,
            forall|j: int| 0 <= j < i ==> left@[j] == right@[j],
        decreases left.len() - i,
    {
        if left[i] != right[i] {
            assert(a@[i as int] != b@[i as int]);
            return false;
        }
        i += 1;
    }
    assert(left@ =~= right@);
    true
}

/// Whether `s` is `lower` when the case of its letters is set aside; `lower`
/// is given in lower case.
pub fn equals_folded(s: &str, lower: &str) -> (same: bool)
    ensures
        same == (folded(s@) == lower@),
{
    let left = to_chars(s);
    let right = to_chars(lower);
    if left.len() != right.len() {
        return false;
    }
    let mut i: usize = 0;
    while i < left.len()
        invariant
            i <= left.len(),
            left.len() == right.len(),
            left@ == s@,
            right@ == lower@,
            forall|j: int| 0 <= j < i ==> fold(left@[j]) == right@[j],
        decreases left.len() - i,
    {
        if fold_char(left[i]) != right[i] {
            assert(folded(s@)[i as int] == fold(s@[i as int]));
            assert(folded(s@)[i as int] != lower@[i as int]);
            return false;
        }
        i += 1;
    }
    assert(folded(left@) =~= right@);
    true
}

/// Runs from `from` over the chars of `class` and stops at the first char
/// outside it, or at `to`.
pub(crate) fn scan(chars: &Vec<char>, from: usize, to: usize, class: CharClass) -> (end: usize)
    requires
        from <= to <= chars.len(),
    ensures
        from <= end <= to,
        end == from + run_len(chars@.subrange(from as int, to as int), class),
{
    let ghost part = chars@.subrange(from as int, to as int);
    let mut i: usize = from;
    while i < to && class.test(chars[i])
        invariant
            from <= i <= to <= chars.len(),
            part == chars@.subrange(from as int, to as int),
            forall|j: int| 0 <= j < i - from ==> class.holds(#[trigger] part[j]),
        decreases to - i,
    {
        assert(part[i - from] == chars@[i as int]);
        i += 1;
    }
    proof {
        if i < to {
            assert(part[i - from] == chars@[i as int]);
        }
        lemma_run_len(part, class, i - from);
    }
    i
}

/// Runs back from `to` over the chars of `class` and stops behind the last
/// char outside it, or at `from`.
pub(crate) fn scan_back(chars: &Vec<char>, from: usize, to: usize, class: CharClass) -> (start:
    usize)
    requires
        from <= to <= chars.len(),
    ensures
        from <= start <= to,
        start == to - tail_len(chars@.subrange(from as int, to as int), class),
{
    let ghost part = chars@.subrange(from as int, to as int);
    let mut i: usize = to;
    while i > from && class.test(chars[i - 1])
        invariant
            from <= i <= to <= chars.len(),
            part == chars@.subrange(from as int, to as int),
            forall|j: int| i - from <= j < to - from ==> class.holds(#[trigger] part[j]),
        decreases i - from,
    {
        assert(part[i - 1 - from] == chars@[i - 1]);
        i -= 1;
    }
    proof {
        if i > from {
            assert(part[i - 1 - from] == chars@[i - 1]);
        }
        lemma_tail_len(part, class, to - i);
    }
    i
}

/// The stretch of `from..to` that is left when the white space at both ends
/// is taken away.
pub(crate) fn trim(chars: &Vec<char>, from: usize, to: usize) -> (bounds: (usize, usize))
    requires
        from <= to <= chars.len(),
    ensures
        from <= bounds.0 <= bounds.1 <= to,
        chars@.subrange(bounds.0 as int, bounds.1 as int) == trimmed(
            chars@.subrange(from as int, to as int),
        ),
{
    let start = scan(chars, from, to, CharClass::Space);
    let end = scan_back(chars, start, to, CharClass::Space);
    proof {
        let part = chars@.subrange(from as int, to as int);
        let rest = part.skip(run_len(part, CharClass::Space) as int);
        assert(rest == chars@.subrange(start as int, to as int));
        assert(rest.take(rest.len() - tail_len(rest, CharClass::Space)) == chars@.subrange(
            start as int,
            end as int,
        ));
    }
    (start, end)
}

/// Whether `needle` stands in `chars` at `at`, inside `from..to`, without
/// regard to the case of the letters of `chars`.
fn matches_here(chars: &Vec<char>, from: usize, to: usize, at: usize, needle: &Vec<char>) -> (b:
    bool)
    requires
        from <= at <= to <= chars.len(),
        at + needle.len() <= to,
    ensures
        b == matches_at(chars@.subrange(from as int, to as int), at - from, needle@),
{
    let ghost part = chars@.subrange(from as int, to as int);
    let mut j: usize = 0;
    while j < needle.len()
        invariant
            from <= at <= to <= chars.len(),
            at + needle.len() <= to,
            j <= needle.len(),
            part == chars@.subrange(from as int, to as int),
            forall|k: int| 0 <= k < j ==> fold(#[trigger] part[at - from + k]) == needle@[k],
        decreases needle.len() - j,
    {
        assert(part[at - from + j] == chars@[at + j]);
        if fold_char(chars[at + j]) != needle[j] {
            return false;
        }
        j += 1;
    }
    true
}

/// Whether `needle`, given in lower case, occurs in the stretch `from..to`
/// without regard to the case of its letters.
pub(crate) fn contains_folded(
    chars: &Vec<char>,
    from: usize,
    to: usize,
    needle: &Vec<char>,
) -> (b: bool)
    requires
        from <= to <= chars.len(),
    ensures
        b == mentions(chars@.subrange(from as int, to as int), needle@),
{
    let ghost part = chars@.subrange(from as int, to as int);
    if needle.len() > to - from {
        assert(forall|at: int| !matches_at(part, at, needle@));
        return false;
    }
    let last: usize = to - needle.len();
    let mut at: usize = from;
    while at <= last
        invariant
            from <= at <= last + 1,
            last == to - needle.len(),
            from <= to <= chars.len(),
            part == chars@.subrange(from as int, to as int),
            forall|k: int| 0 <= k < at - from ==> !matches_at(part, k, needle@),
        decreases last + 1 - at,
    {
        if matches_here(chars, from, to, at, needle) {
            return true;
        }
        at += 1;
    }
    assert(forall|k: int| !matches_at(part, k, needle@));
    false
}

/// Where the first number in the stretch `from..to` begins and ends.
pub(crate) fn find_number(chars: &Vec<char>, from: usize, to: usize) -> (span: Option<
    (usize, usize),
>)
    requires
        from <= to <= chars.len(),
    ensures
        match span {
            Some((start, end)) => {
                &&& from <= start < end <= to
                &&& number_span(chars@.subrange(from as int, to as int)) == Some(
                    (start - from, end - from),
                )
            },
            None => number_span(chars@.subrange(from as int, to as int)) is None,
        },
{
    let ghost part = chars@.subrange(from as int, to as int);
    let start = scan(chars, from, to, CharClass::NonDigit);
    if start >= to {
        return None;
    }
    let whole_end = scan(chars, start, to, CharClass::Digit);
    proof {
        assert(part.skip(start - from) == chars@.subrange(start as int, to as int));
        lemma_run_len_bounds(part, CharClass::NonDigit);
        assert(part[start - from] == chars@[start as int]);
        assert(part.skip(start - from)[0] == part[start - from]);
        assert(whole_end > start);
    }
    if whole_end < to && chars[whole_end] == '.' {
        let end = scan(chars, whole_end + 1, to, CharClass::Digit);
        proof {
            assert(part[whole_end - from] == chars@[whole_end as int]);
            assert(part.skip(whole_end + 1 - from) == chars@.subrange(
                whole_end + 1,
                to as int,
            ));
        }
        Some((start, end))
    } else {
        proof {
            if whole_end < to {
                assert(part[whole_end - from] == chars@[whole_end as int]);
            }
        }
        Some((start, whole_end))
    }
}

/// The first number in `s`, as text: leading prose and a trailing unit are
/// passed over. `None` where `s` holds no digit.
pub(crate) fn extract_number(s: &str) -> (number: Option<String>)
    ensures
        match number {
            Some(text) => extract_number_spec(s@) == Some(text@),
            None => extract_number_spec(s@) is None,
        },
{
    let chars = to_chars(s);
    assert(chars@.subrange(0, chars@.len() as int) == chars@);
    match find_number(&chars, 0, chars.len()) {
        Some((start, end)) => Some(String::from_str(s.substring_char(start, end))),
        None => None,
    }
}

} // verus!
