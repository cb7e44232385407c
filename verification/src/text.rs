//! Text helpers shared by the rest of the crate: white space, words, trimming,
//! decimal numbers and joining.
use vstd::prelude::*;
use vstd::string::*;

verus! {

/// The code points that Unicode gives the property `White_Space`.
pub open spec fn is_space(c: char) -> bool {
    let n = c as u32;
    ||| 0x09 <= n <= 0x0D
    ||| n == 0x20
    ||| n == 0x85
    ||| n == 0xA0
    ||| n == 0x1680
    ||| 0x2000 <= n <= 0x200A
    ||| n == 0x2028
    ||| n == 0x2029
    ||| n == 0x202F
    ||| n == 0x205F
    ||| n == 0x3000
}

/// Whether `c` separates words.
pub fn is_whitespace(c: char) -> (b: bool)
    ensures
        b == is_space(c),
{
    let n: u32 = c as u32;
    (0x09 <= n && n <= 0x0D) || n == 0x20 || n == 0x85 || n == 0xA0 || n == 0x1680 || (0x2000 <= n
        && n <= 0x200A) || n == 0x2028 || n == 0x2029 || n == 0x202F || n == 0x205F || n == 0x3000
}

/// A word starts at `i` when `s[i]` is no white space and `i` is the first
/// position or follows white space.
pub open spec fn starts_word(s: Seq<char>, i: int) -> bool {
    &&& 0 <= i < s.len()
    &&& !is_space(s[i])
    &&& (i == 0 || is_space(s[i - 1]))
}

/// The number of maximal runs of characters that are no white space.
pub open spec fn word_count(s: Seq<char>) -> nat
    decreases s.len(),
{
    if s.len() == 0 {
        0
    } else if starts_word(s, s.len() - 1) {
        word_count(s.drop_last()) + 1
    } else {
        word_count(s.drop_last())
    }
}

/// Counts the words of `text`: the runs of characters between white space.
pub fn count_words(text: &str) -> (n: usize)
    ensures
        n == word_count(text@),
{
    let total = text.unicode_len();
    let mut n: usize = 0;
    let mut after_space = true;
    for c in it: text.chars()
        invariant
            it.seq() == text@,
            total == text@.len(),
            n <= it.index(),
            n == word_count(text@.take(it.index())),
            after_space == (it.index() == 0 || is_space(text@[it.index() - 1])),
    {
        let ghost i = it.index();
        let space = is_whitespace(c);
        proof {
            let before = text@.take(i);
            let now = text@.take(i + 1);
            assert(now.drop_last() =~= before);
            assert(now[i] == text@[i]);
            assert(i > 0 ==> now[i - 1] == text@[i - 1]);
        }
        if !space && after_space {
            n += 1;
        }
        after_space = space;
    }
    proof {
        assert(text@.take(text@.len() as int) =~= text@);
    }
    n
}

/// `std::string::String::push`: appends one character at the end.
pub assume_specification[ String::push ](s: &mut String, c: char)
    ensures
        final(s)@ == old(s)@.push(c),
;

/// What is left of `s` once the white space at its front is gone.
pub open spec fn trim_start(s: Seq<char>) -> Seq<char>
    decreases s.len(),
{
    if s.len() > 0 && is_space(s[0]) {
        trim_start(s.drop_first())
    } else {
        s
    }
}

/// What is left of `s` once the white space at its end is gone.
pub open spec fn trim_end(s: Seq<char>) -> Seq<char>
    decreases s.len(),
{
    if s.len() > 0 && is_space(s.last()) {
        trim_end(s.drop_last())
    } else {
        s
    }
}

/// `s` without the white space at either end.
pub open spec fn trimmed(s: Seq<char>) -> Seq<char> {
    trim_end(trim_start(s))
}

/// A string of white space alone trims to nothing.
pub proof fn lemma_trim_start_all_space(s: Seq<char>)
    requires
        forall|i: int| 0 <= i < s.len() ==> is_space(#[trigger] s[i]),
    ensures
        trim_start(s) =~= Seq::<char>::empty(),
    decreases s.len(),
{
    if s.len() > 0 {
        lemma_trim_start_all_space(s.drop_first());
    }
}

/// Trimming the front cuts at the first character that is no white space.
pub proof fn lemma_trim_start_at(s: Seq<char>, a: int)
    requires
        0 <= a < s.len(),
        !is_space(s[a]),
        forall|i: int| 0 <= i < a ==> is_space(#[trigger] s[i]),
    ensures
        trim_start(s) =~= s.subrange(a, s.len() as int),
    decreases a,
{
    if a > 0 {
        let rest = s.drop_first();
        assert forall|i: int| 0 <= i < a - 1 implies is_space(#[trigger] rest[i]) by {
            assert(rest[i] == s[i + 1]);
        }
        lemma_trim_start_at(rest, a - 1);
        assert(rest.subrange(a - 1, rest.len() as int) =~= s.subrange(a, s.len() as int));
    } else {
        assert(s.subrange(0, s.len() as int) =~= s);
    }
}

/// Trimming the end cuts behind the last character that is no white space.
pub proof fn lemma_trim_end_at(s: Seq<char>, b: int)
    requires
        0 < b <= s.len(),
        !is_space(s[b - 1]),
        forall|i: int| b <= i < s.len() ==> is_space(#[trigger] s[i]),
    ensures
        trim_end(s) =~= s.subrange(0, b),
    decreases s.len() - b,
{
    if b < s.len() {
        let rest = s.drop_last();
        lemma_trim_end_at(rest, b);
        assert(rest.subrange(0, b) =~= s.subrange(0, b));
    } else {
        assert(s.subrange(0, b) =~= s);
    }
}

/// A copy of `text` without the white space at either end.
pub fn trim(text: &str) -> (out: String)
    ensures
        out@ == trimmed(text@),
{
    let total = text.unicode_len();
    let mut first: usize = 0;
    let mut found = false;
    let mut end: usize = 0;
    let mut at: usize = 0;
    for c in it: text.chars()
        invariant
            it.seq() == text@,
            total == text@.len(),
            at == it.index(),
            !found ==> forall|i: int| 0 <= i < at ==> is_space(#[trigger] text@[i]),
            found ==> {
                &&& first < end <= at
                &&& !is_space(text@[first as int])
                &&& !is_space(text@[end - 1])
                &&& forall|i: int| 0 <= i < first ==> is_space(#[trigger] text@[i])
                &&& forall|i: int| end <= i < at ==> is_space(#[trigger] text@[i])
            },
    {
        if !is_whitespace(c) {
            if !found {
                first = at;
                found = true;
            }
            end = at + 1;
        }
        at += 1;
    }
    if found {
        proof {
            let s = text@;
            lemma_trim_start_at(s, first as int);
            let front = s.subrange(first as int, s.len() as int);
            assert(front[end - first - 1] == s[end - 1]);
            assert forall|i: int| end - first <= i < front.len() implies is_space(
                #[trigger] front[i],
            ) by {
                assert(front[i] == s[i + first]);
            }
            lemma_trim_end_at(front, end - first);
            assert(front.subrange(0, end - first) =~= s.subrange(first as int, end as int));
        }
        String::from_str(text.substring_char(first, end))
    } else {
        proof {
            lemma_trim_start_all_space(text@);
        }
        String::new()
    }
}

/// The character of a decimal digit.
pub open spec fn digit_char(d: nat) -> char
    recommends
        d < 10,
{
    ((48 + d) as u8) as char
}

/// `n` in decimal, without sign or leading zeros.
pub open spec fn decimal(n: nat) -> Seq<char>
    decreases n,
{
    if n < 10 {
        seq![digit_char(n)]
    } else {
        decimal(n / 10).push(digit_char(n % 10))
    }
}

/// Appends `n` in decimal to `out`.
pub fn push_decimal(out: &mut String, n: u64)
    ensures
        final(out)@ == old(out)@ + decimal(n as nat),
    decreases n,
{
    if n >= 10 {
        push_decimal(out, n / 10);
    }
    let d: u8 = (n % 10) as u8;
    out.push((48 + d) as char);
    proof {
        assert(final(out)@ =~= old(out)@ + decimal(n as nat));
    }
}

/// `n` in decimal, padded with a zero to two digits.
pub open spec fn two_digits(n: nat) -> Seq<char> {
    if n < 10 {
        seq!['0'] + decimal(n)
    } else {
        decimal(n)
    }
}

/// Appends `n` in decimal to `out`, with a leading zero below ten.
pub fn push_two_digits(out: &mut String, n: u64)
    ensures
        final(out)@ == old(out)@ + two_digits(n as nat),
{
    if n < 10 {
        out.push('0');
    }
    push_decimal(out, n);
    proof {
        assert(final(out)@ =~= old(out)@ + two_digits(n as nat));
    }
}

/// The items of `parts` in order, with `sep` between neighbours.
pub open spec fn joined(parts: Seq<Seq<char>>, sep: Seq<char>) -> Seq<char>
    decreases parts.len(),
{
    if parts.len() == 0 {
        Seq::<char>::empty()
    } else if parts.len() == 1 {
        parts[0]
    } else {
        joined(parts.drop_last(), sep) + sep + parts.last()
    }
}

/// The views of a vector of strings.
pub open spec fn texts(v: Seq<String>) -> Seq<Seq<char>> {
    v.map_values(|s: String| s@)
}

/// Joins `parts` with `sep` between neighbours.
pub fn join(parts: &Vec<String>, sep: &str) -> (out: String)
    ensures
        out@ == joined(texts(parts@), sep@),
{
    let mut out = String::new();
    let mut i: usize = 0;
    while i < parts.len()
        invariant
            i <= parts.len(),
            out@ == joined(texts(parts@).take(i as int), sep@),
        decreases parts.len() - i,
    {
        proof {
            let all = texts(parts@);
            assert(all.take(i + 1).drop_last() =~= all.take(i as int));
            assert(all.take(i + 1).last() == parts@[i as int]@);
        }
        if i > 0 {
            out.append(sep);
        }
        out.append(parts[i].as_str());
        i += 1;
    }
    proof {
        assert(texts(parts@).take(parts.len() as int) =~= texts(parts@));
    }
    out
}

/// Whether `s` begins with `prefix`.
pub open spec fn has_prefix(s: Seq<char>, prefix: Seq<char>) -> bool {
    prefix.len() <= s.len() && s.subrange(0, prefix.len() as int) == prefix
}

/// Whether two string slices hold the same characters.
pub fn same_text(a: &str, b: &str) -> (same: bool)
    ensures
        same == (a@ == b@),
{
    let x = String::from_str(a);
    let y = String::from_str(b);
    x == y
}

/// Whether `text` begins with `prefix`.
pub fn starts_with(text: &str, prefix: &str) -> (b: bool)
    ensures
        b == has_prefix(text@, prefix@),
{
    let n = prefix.unicode_len();
    if text.unicode_len() < n {
        false
    } else {
        same_text(text.substring_char(0, n), prefix)
    }
}

} // verus!
