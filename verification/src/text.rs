//! Character-level text helpers. Strings are handled as sequences of `char`;
//! appending a character to a string and changing the case of a text are
//! left to the standard library and trusted, everything else is proved.
use vstd::prelude::*;
use vstd::std_specs::iter::IteratorSpec;

verus! {

/// What `str::to_lowercase` returns for a text.
pub uninterp spec fn lowercase(s: Seq<char>) -> Seq<char>;

/// What `str::to_uppercase` returns for a text.
pub uninterp spec fn uppercase(s: Seq<char>) -> Seq<char>;

/// Whether a character is white space: one of the code points that Unicode
/// gives the property `White_Space`, which is what `char::is_whitespace`
/// tells.
pub open spec fn whitespace(c: char) -> bool {
    let n = c as u32;
    ||| 0x09 <= n <= 0x0D
    ||| n == 0x20
    ||| n == 0x85
    ||| n == 0xA0
    ||| n == 0x1680
    ||| 0x2000 <= n <= 0x200A
    ||| n == 0x2028
    ||| n == 0x2029
    ||| n == 0x202F
    ||| n == 0x205F
    ||| n == 0x3000
}

/// How many bytes a character takes in UTF-8.
pub open spec fn utf8_len(c: char) -> int {
    let n = c as u32;
    if n < 0x80 {
        1
    } else if n < 0x800 {
        2
    } else if n < 0x10000 {
        3
    } else {
        4
    }
}

/// Where the longest run of whole characters from position `i` on ends
/// that takes no more than `budget` bytes in UTF-8.
pub open spec fn prefix_end(s: Seq<char>, budget: int, i: int) -> int
    decreases s.len() - i,
{
    if i < 0 || i >= s.len() || utf8_len(s[i]) > budget {
        i
    } else {
        prefix_end(s, budget - utf8_len(s[i]), i + 1)
    }
}

/// The longest prefix of a text that takes no more than `limit` bytes in
/// UTF-8. Where the text has a character boundary at byte `limit`, this is
/// its first `limit` bytes; a shorter text is taken whole.
pub open spec fn byte_prefix(s: Seq<char>, limit: int) -> Seq<char> {
    s.subrange(0, prefix_end(s, limit, 0))
}

/// `pat` occurs in `s` at position `i`.
pub open spec fn matches_at(s: Seq<char>, pat: Seq<char>, i: int) -> bool {
    &&& 0 <= i
    &&& i + pat.len() <= s.len()
    &&& s.subrange(i, i + pat.len()) == pat
}

/// Position of the first occurrence of `pat` in `s` at or after `from`.
pub open spec fn find_sub(s: Seq<char>, pat: Seq<char>, from: int) -> Option<int>
    decreases s.len() - from + 1,
{
    if from < 0 || from + pat.len() > s.len() {
        None
    } else if matches_at(s, pat, from) {
        Some(from)
    } else {
        find_sub(s, pat, from + 1)
    }
}

/// A first occurrence is an occurrence at or after `from`, and none stands
/// between `from` and it.
pub proof fn lemma_find_sub_found(s: Seq<char>, pat: Seq<char>, from: int)
    requires
        find_sub(s, pat, from).is_some(),
    ensures
        from <= find_sub(s, pat, from).unwrap(),
        matches_at(s, pat, find_sub(s, pat, from).unwrap()),
        forall|j: int| from <= j < find_sub(s, pat, from).unwrap() ==> !matches_at(s, pat, j),
    decreases s.len() - from + 1,
{
    if !matches_at(s, pat, from) {
        lemma_find_sub_found(s, pat, from + 1);
    }
}

/// An occurrence with none between `from` and it is the first one.
pub proof fn lemma_find_sub_first(s: Seq<char>, pat: Seq<char>, from: int, at: int)
    requires
        0 <= from <= at,
        matches_at(s, pat, at),
        forall|j: int| from <= j < at ==> !matches_at(s, pat, j),
    ensures
        find_sub(s, pat, from) == Some(at),
    decreases at - from,
{
    if from < at {
        lemma_find_sub_first(s, pat, from + 1, at);
    }
}

/// `pat` occurs somewhere in `s`.
pub open spec fn contains_sub(s: Seq<char>, pat: Seq<char>) -> bool {
    find_sub(s, pat, 0).is_some()
}

/// Position of the first `c` in `s` at or after `from`.
pub open spec fn find_char(s: Seq<char>, c: char, from: int) -> Option<int>
    decreases s.len() - from,
{
    if from < 0 || from >= s.len() {
        None
    } else if s[from] == c {
        Some(from)
    } else {
        find_char(s, c, from + 1)
    }
}

/// Position of the last `c` in `s`.
pub open spec fn rfind_char(s: Seq<char>, c: char) -> Option<int>
    decreases s.len(),
{
    if s.len() == 0 {
        None
    } else if s.last() == c {
        Some(s.len() - 1)
    } else {
        rfind_char(s.drop_last(), c)
    }
}

/// `s` from position `i` on, with every occurrence of `pat` replaced by `to`,
/// scanning left to right without overlap. An empty `pat` replaces nothing.
pub open spec fn replace_from(s: Seq<char>, pat: Seq<char>, to: Seq<char>, i: int) -> Seq<char>
    decreases s.len() - i,
{
    if i < 0 || i >= s.len() {
        Seq::<char>::empty()
    } else if pat.len() > 0 && matches_at(s, pat, i) {
        to + replace_from(s, pat, to, i + pat.len())
    } else {
        seq![s[i]] + replace_from(s, pat, to, i + 1)
    }
}

/// `s` with every occurrence of `pat` replaced by `to`.
pub open spec fn replace_all(s: Seq<char>, pat: Seq<char>, to: Seq<char>) -> Seq<char> {
    replace_from(s, pat, to, 0)
}

/// The views of a list of texts.
pub open spec fn views(v: Seq<&str>) -> Seq<Seq<char>> {
    Seq::new(v.len(), |i: int| v[i]@)
}

/// The characters of an optional string.
pub open spec fn string_view(o: Option<String>) -> Option<Seq<char>> {
    match o {
        Some(s) => Some(s@),
        None => None,
    }
}

/// The characters of an optional text.
pub open spec fn opt_view(o: Option<&str>) -> Option<Seq<char>> {
    match o {
        Some(s) => Some(s@),
        None => None,
    }
}

/// The characters of `s`, in order.
pub fn chars_of(s: &str) -> (r: Vec<char>)
    ensures
        r@ == s@,
{
    broadcast use vstd::string::group_string_axioms;

    let mut out: Vec<char> = Vec::new();
    let mut rest = s.chars();
    loop
        invariant
            rest.obeys_prophetic_iter_laws(),
            rest.decrease() is Some,
            out@ + rest.remaining() == s@,
        decreases rest.decrease()->0,
    {
        match rest.next() {
            Some(c) => {
                out.push(c);
                proof {
                    assert(out@ + rest.remaining() =~= s@);
                }
            },
            None => {
                proof {
                    assert(out@ =~= s@);
                }
                return out;
            },
        }
    }
}

/// `String::push`: one more character at the end.
#[verifier::external_body]
fn push_char(s: &mut String, c: char)
    ensures
        final(s)@ == old(s)@.push(c),
{
    s.push(c);
}

/// The string made of the characters of `v`, in order.
pub fn string_of(v: &Vec<char>) -> (r: String)
    ensures
        r@ == v@,
{
    let mut out = String::new();
    let mut i: usize = 0;
    while i < v.len()
        invariant
            i <= v.len(),
            out@ == v@.subrange(0, i as int),
        decreases v.len() - i,
    {
        push_char(&mut out, v[i]);
        proof {
            assert(out@ =~= v@.subrange(0, i + 1));
        }
        i += 1;
    }
    proof {
        assert(v@.subrange(0, v.len() as int) =~= v@);
    }
    out
}

/// Whether two texts hold the same characters.
pub fn str_eq(a: &str, b: &str) -> (r: bool)
    ensures
        r == (a@ == b@),
{
    let left = a.to_owned();
    let right = b.to_owned();
    left == right
}

/// `str::to_lowercase`; its result is known only by name.
#[verifier::external_body]
pub(crate) fn to_lowercase(s: &str) -> (r: String)
    ensures
        r@ == lowercase(s@),
{
    s.to_lowercase()
}

/// `str::to_uppercase`; its result is known only by name.
#[verifier::external_body]
pub(crate) fn to_uppercase(s: &str) -> (r: String)
    ensures
        r@ == uppercase(s@),
{
    s.to_uppercase()
}

/// Whether a character is white space.
pub fn is_whitespace(c: char) -> (r: bool)
    ensures
        r == whitespace(c),
{
    let n: u32 = c as u32;
    (0x09 <= n && n <= 0x0D) || n == 0x20 || n == 0x85 || n == 0xA0 || n == 0x1680 || (0x2000 <= n
        && n <= 0x200A) || n == 0x2028 || n == 0x2029 || n == 0x202F || n == 0x205F || n == 0x3000
}

/// How many bytes a character takes in UTF-8.
pub fn utf8_len_of(c: char) -> (r: usize)
    ensures
        r == utf8_len(c),
        1 <= r <= 4,
{
    let n: u32 = c as u32;
    if n < 0x80 {
        1
    } else if n < 0x800 {
        2
    } else if n < 0x10000 {
        3
    } else {
        4
    }
}

/// The end of a byte-bounded run of characters lies within the text, at or
/// after its start.
pub proof fn lemma_prefix_end(s: Seq<char>, budget: int, i: int)
    requires
        0 <= i <= s.len(),
    ensures
        i <= prefix_end(s, budget, i) <= s.len(),
    decreases s.len() - i,
{
    if i < s.len() && utf8_len(s[i]) <= budget {
        lemma_prefix_end(s, budget - utf8_len(s[i]), i + 1);
    }
}

/// The longest prefix of a text that takes no more than `limit` bytes in
/// UTF-8.
pub fn take_bytes(s: &str, limit: usize) -> (r: String)
    ensures
        r@ == byte_prefix(s@, limit as int),
{
    let chars = chars_of(s);
    let mut budget: usize = limit;
    let mut i: usize = 0;
    while i < chars.len() && utf8_len_of(chars[i]) <= budget
        invariant
            i <= chars.len(),
            prefix_end(chars@, limit as int, 0) == prefix_end(chars@, budget as int, i as int),
        decreases chars.len() - i,
    {
        budget = budget - utf8_len_of(chars[i]);
        i += 1;
    }
    string_of(&slice_of(&chars, 0, i))
}

/// Does `pat` occur in `s` at position `i`?
pub fn matches_at_exec(s: &Vec<char>, pat: &Vec<char>, i: usize) -> (r: bool)
    ensures
        r == matches_at(s@, pat@, i as int),
{
    if pat.len() > s.len() || i > s.len() - pat.len() {
        return false;
    }
    let mut k: usize = 0;
    while k < pat.len()
        invariant
            k <= pat.len(),
            i + pat.len() <= s.len(),
            forall|j: int| 0 <= j < k ==> s[i + j] == pat[j],
        decreases pat.len() - k,
    {
        if s[i + k] != pat[k] {
            proof {
                assert(s@.subrange(i as int, i + pat.len())[k as int] == s[i + k]);
            }
            return false;
        }
        k += 1;
    }
    proof {
        assert(s@.subrange(i as int, i + pat.len()) =~= pat@);
    }
    true
}

/// First occurrence of `pat` in `s` at or after `from`.
pub fn find_sub_from(s: &Vec<char>, pat: &Vec<char>, from: usize) -> (r: Option<usize>)
    ensures
        match r {
            Some(i) => find_sub(s@, pat@, from as int) == Some(i as int) && from <= i && i
                + pat.len() <= s.len() && matches_at(s@, pat@, i as int),
            None => find_sub(s@, pat@, from as int).is_none(),
        },
{
    if pat.len() > s.len() {
        return None;
    }
    let last = s.len() - pat.len();
    let mut i: usize = from;
    while i <= last
        invariant
            from <= i,
            last == s.len() - pat.len(),
            find_sub(s@, pat@, from as int) == find_sub(s@, pat@, i as int),
        decreases last + 1 - i,
    {
        if matches_at_exec(s, pat, i) {
            return Some(i);
        }
        if i == last {
            proof {
                assert(find_sub(s@, pat@, i + 1).is_none());
            }
            return None;
        }
        i += 1;
    }
    None
}

/// First occurrence of `pat` in `s`.
pub fn find_sub_exec(s: &Vec<char>, pat: &Vec<char>) -> (r: Option<usize>)
    ensures
        match r {
            Some(i) => find_sub(s@, pat@, 0) == Some(i as int) && i + pat.len() <= s.len()
                && matches_at(s@, pat@, i as int),
            None => find_sub(s@, pat@, 0).is_none(),
        },
{
    find_sub_from(s, pat, 0)
}

/// Does `pat` occur in `s`?
pub fn contains_exec(s: &Vec<char>, pat: &Vec<char>) -> (r: bool)
    ensures
        r == contains_sub(s@, pat@),
{
    find_sub_from(s, pat, 0).is_some()
}

/// First `c` in `s`.
pub fn find_char_exec(s: &Vec<char>, c: char) -> (r: Option<usize>)
    ensures
        match r {
            Some(i) => find_char(s@, c, 0) == Some(i as int) && i < s.len() && s[i as int] == c,
            None => find_char(s@, c, 0).is_none(),
        },
{
    let mut i: usize = 0;
    while i < s.len()
        invariant
            i <= s.len(),
            find_char(s@, c, 0) == find_char(s@, c, i as int),
        decreases s.len() - i,
    {
        if s[i] == c {
            return Some(i);
        }
        i += 1;
    }
    None
}

/// Last `c` in `s`.
pub fn rfind_char_exec(s: &Vec<char>, c: char) -> (r: Option<usize>)
    ensures
        match r {
            Some(i) => rfind_char(s@, c) == Some(i as int) && i < s.len() && s[i as int] == c,
            None => rfind_char(s@, c).is_none(),
        },
{
    let mut n: usize = s.len();
    proof {
        assert(s@.subrange(0, n as int) =~= s@);
    }
    while n > 0
        invariant
            n <= s.len(),
            rfind_char(s@, c) == rfind_char(s@.subrange(0, n as int), c),
        decreases n,
    {
        if s[n - 1] == c {
            return Some(n - 1);
        }
        proof {
            assert(s@.subrange(0, n as int).drop_last() =~= s@.subrange(0, n - 1));
        }
        n -= 1;
    }
    None
}

/// Copy of `s[from..to]`.
pub fn slice_of(s: &Vec<char>, from: usize, to: usize) -> (r: Vec<char>)
    requires
        from <= to <= s.len(),
    ensures
        r@ == s@.subrange(from as int, to as int),
{
    let mut out: Vec<char> = Vec::new();
    let mut i: usize = from;
    while i < to
        invariant
            from <= i <= to <= s.len(),
            out@ == s@.subrange(from as int, i as int),
        decreases to - i,
    {
        out.push(s[i]);
        proof {
            assert(out@ =~= s@.subrange(from as int, i + 1));
        }
        i += 1;
    }
    out
}

/// Append the characters of `src` to `dst`.
pub fn push_all(dst: &mut Vec<char>, src: &Vec<char>)
    ensures
        final(dst)@ == old(dst)@ + src@,
{
    let ghost start = dst@;
    let mut i: usize = 0;
    while i < src.len()
        invariant
            i <= src.len(),
            dst@ == start + src@.subrange(0, i as int),
        decreases src.len() - i,
    {
        dst.push(src[i]);
        proof {
            assert(dst@ =~= start + src@.subrange(0, i + 1));
        }
        i += 1;
    }
    proof {
        assert(src@.subrange(0, src.len() as int) =~= src@);
    }
}

/// Append the characters of the text `src` to `dst`.
pub fn push_text(dst: &mut Vec<char>, src: &str)
    ensures
        final(dst)@ == old(dst)@ + src@,
{
    let v = chars_of(src);
    push_all(dst, &v);
}

/// `s` with every occurrence of the non-empty `pat` replaced by `to`.
pub fn replace_exec(s: &Vec<char>, pat: &Vec<char>, to: &Vec<char>) -> (r: Vec<char>)
    requires
        pat.len() > 0,
    ensures
        r@ == replace_all(s@, pat@, to@),
{
    let mut out: Vec<char> = Vec::new();
    let mut i: usize = 0;
    while i < s.len()
        invariant
            i <= s.len(),
            pat.len() > 0,
            replace_all(s@, pat@, to@) == out@ + replace_from(s@, pat@, to@, i as int),
        decreases s.len() - i,
    {
        if matches_at_exec(s, pat, i) {
            let ghost before = out@;
            push_all(&mut out, to);
            proof {
                assert(before + (to@ + replace_from(s@, pat@, to@, i + pat.len())) =~= (before
                    + to@) + replace_from(s@, pat@, to@, i + pat.len()));
            }
            i += pat.len();
        } else {
            let ghost before = out@;
            out.push(s[i]);
            proof {
                assert(before + (seq![s[i as int]] + replace_from(s@, pat@, to@, i + 1))
                    =~= before.push(s[i as int]) + replace_from(s@, pat@, to@, i + 1));
            }
            i += 1;
        }
    }
    proof {
        assert(out@ + Seq::<char>::empty() =~= out@);
    }
    out
}

/// The template `template` with each occurrence of `placeholder` replaced by
/// `value`.
pub fn fill(template: &str, placeholder: &str, value: &str) -> (r: String)
    requires
        placeholder@.len() > 0,
    ensures
        r@ == replace_all(template@, placeholder@, value@),
{
    let t = chars_of(template);
    let p = chars_of(placeholder);
    let v = chars_of(value);
    let out = replace_exec(&t, &p, &v);
    string_of(&out)
}

/// An owned copy of a text.
pub fn owned(s: &str) -> (r: String)
    ensures
        r@ == s@,
{
    let v = chars_of(s);
    string_of(&v)
}

/// The character of a decimal digit.
pub open spec fn digit_char(d: int) -> char {
    if d == 0 {
        '0'
    } else if d == 1 {
        '1'
    } else if d == 2 {
        '2'
    } else if d == 3 {
        '3'
    } else if d == 4 {
        '4'
    } else if d == 5 {
        '5'
    } else if d == 6 {
        '6'
    } else if d == 7 {
        '7'
    } else if d == 8 {
        '8'
    } else {
        '9'
    }
}

/// The decimal digit that a character stands for.
pub open spec fn digit_value(c: char) -> Option<int> {
    if c == '0' {
        Some(0)
    } else if c == '1' {
        Some(1)
    } else if c == '2' {
        Some(2)
    } else if c == '3' {
        Some(3)
    } else if c == '4' {
        Some(4)
    } else if c == '5' {
        Some(5)
    } else if c == '6' {
        Some(6)
    } else if c == '7' {
        Some(7)
    } else if c == '8' {
        Some(8)
    } else if c == '9' {
        Some(9)
    } else {
        None
    }
}

/// A natural number written in decimal, without leading zeros.
pub open spec fn decimal(n: nat) -> Seq<char>
    decreases n,
{
    if n < 10 {
        seq![digit_char(n as int)]
    } else {
        decimal(n / 10).push(digit_char((n % 10) as int))
    }
}

/// An integer written in decimal, with `-` in front of a negative one.
pub open spec fn decimal_int(i: int) -> Seq<char> {
    if i < 0 {
        seq!['-'] + decimal((-i) as nat)
    } else {
        decimal(i as nat)
    }
}

/// The number that a run of decimal digits writes, if `s` is such a run and
/// not empty.
pub open spec fn digits_value(s: Seq<char>) -> Option<nat>
    decreases s.len(),
{
    if s.len() == 0 {
        None
    } else {
        match digit_value(s.last()) {
            None => None,
            Some(d) => if s.len() == 1 {
                Some(d as nat)
            } else {
                match digits_value(s.drop_last()) {
                    None => None,
                    Some(v) => Some((v * 10 + d) as nat),
                }
            },
        }
    }
}

/// The integer that `s` writes in decimal, with an optional `+` or `-` in
/// front.
pub open spec fn signed_value(s: Seq<char>) -> Option<int> {
    if s.len() > 0 && s[0] == '-' {
        match digits_value(s.subrange(1, s.len() as int)) {
            Some(v) => Some(-(v as int)),
            None => None,
        }
    } else if s.len() > 0 && s[0] == '+' {
        match digits_value(s.subrange(1, s.len() as int)) {
            Some(v) => Some(v as int),
            None => None,
        }
    } else {
        match digits_value(s) {
            Some(v) => Some(v as int),
            None => None,
        }
    }
}

/// The 64-bit signed integer that `s` writes, if it writes one that fits.
pub open spec fn i64_value(s: Seq<char>) -> Option<int> {
    match signed_value(s) {
        Some(v) => if i64::MIN <= v <= i64::MAX {
            Some(v)
        } else {
            None
        },
        None => None,
    }
}

/// The character of the digit `d`.
pub fn digit_of(d: u8) -> (r: char)
    requires
        d < 10,
    ensures
        r == digit_char(d as int),
{
    if d == 0 {
        '0'
    } else if d == 1 {
        '1'
    } else if d == 2 {
        '2'
    } else if d == 3 {
        '3'
    } else if d == 4 {
        '4'
    } else if d == 5 {
        '5'
    } else if d == 6 {
        '6'
    } else if d == 7 {
        '7'
    } else if d == 8 {
        '8'
    } else {
        '9'
    }
}

/// The digit that `c` stands for.
pub fn value_of_digit(c: char) -> (r: Option<u8>)
    ensures
        match r {
            Some(d) => digit_value(c) == Some(d as int) && d < 10,
            None => digit_value(c).is_none(),
        },
{
    if c == '0' {
        Some(0)
    } else if c == '1' {
        Some(1)
    } else if c == '2' {
        Some(2)
    } else if c == '3' {
        Some(3)
    } else if c == '4' {
        Some(4)
    } else if c == '5' {
        Some(5)
    } else if c == '6' {
        Some(6)
    } else if c == '7' {
        Some(7)
    } else if c == '8' {
        Some(8)
    } else if c == '9' {
        Some(9)
    } else {
        None
    }
}

/// `n` in decimal.
pub fn decimal_u64(n: u64) -> (r: Vec<char>)
    ensures
        r@ == decimal(n as nat),
    decreases n,
{
    if n < 10 {
        let mut v: Vec<char> = Vec::new();
        v.push(digit_of(n as u8));
        proof {
            assert(v@ =~= seq![digit_char(n as int)]);
        }
        v
    } else {
        let mut v = decimal_u64(n / 10);
        v.push(digit_of((n % 10) as u8));
        v
    }
}

/// `i` in decimal.
pub fn decimal_i64(i: i64) -> (r: Vec<char>)
    ensures
        r@ == decimal_int(i as int),
{
    if i < 0 {
        let wide: i128 = -(i as i128);
        let magnitude: u64 = wide as u64;
        let mut v: Vec<char> = Vec::new();
        v.push('-');
        let digits = decimal_u64(magnitude);
        push_all(&mut v, &digits);
        proof {
            assert(v@ =~= seq!['-'] + decimal((-i) as nat));
        }
        v
    } else {
        decimal_u64(i as u64)
    }
}

/// The number written by the digits `s[from..]`, if they are decimal digits,
/// at least one, and the number is at most `limit`.
pub fn parse_digits(s: &Vec<char>, from: usize, limit: u64) -> (r: Option<u64>)
    requires
        from <= s.len(),
    ensures
        match r {
            Some(v) => digits_value(s@.subrange(from as int, s.len() as int)) == Some(v as nat)
                && v <= limit,
            None => match digits_value(s@.subrange(from as int, s.len() as int)) {
                Some(v) => v > limit,
                None => true,
            },
        },
{
    if from == s.len() {
        return None;
    }
    let ghost tail = s@.subrange(from as int, s.len() as int);
    let mut acc: u64 = 0;
    let mut over = false;
    let mut i: usize = from;
    while i < s.len()
        invariant
            from <= i <= s.len(),
            from < s.len(),
            tail == s@.subrange(from as int, s.len() as int),
            i > from ==> match digits_value(s@.subrange(from as int, i as int)) {
                Some(v) => if over {
                    v > limit
                } else {
                    v == acc && acc <= limit
                },
                None => false,
            },
            i == from ==> acc == 0 && !over,
        decreases s.len() - i,
    {
        let ghost prefix = s@.subrange(from as int, i as int);
        let ghost next = s@.subrange(from as int, i + 1);
        proof {
            assert(next.drop_last() =~= prefix);
            assert(next.last() == s[i as int]);
        }
        match value_of_digit(s[i]) {
            None => {
                proof {
                    lemma_digits_need_digits(tail, i - from);
                }
                return None;
            },
            Some(d) => {
                if !over {
                    if limit < d as u64 || acc > (limit - d as u64) / 10 {
                        over = true;
                    } else {
                        acc = acc * 10 + d as u64;
                    }
                }
                proof {
                    if i > from {
                        let v = digits_value(prefix).unwrap();
                        assert(digits_value(next) == Some((v * 10 + d) as nat));
                    }
                }
            },
        }
        i += 1;
    }
    proof {
        assert(s@.subrange(from as int, s.len() as int) =~= tail);
    }
    if over {
        None
    } else {
        Some(acc)
    }
}

/// A character that is no digit spoils the whole run.
pub proof fn lemma_digits_need_digits(s: Seq<char>, i: int)
    requires
        0 <= i < s.len(),
        digit_value(s[i]).is_none(),
    ensures
        digits_value(s).is_none(),
    decreases s.len(),
{
    if i < s.len() - 1 {
        lemma_digits_need_digits(s.drop_last(), i);
    }
}

/// The 64-bit signed integer that the text writes: an optional sign, then
/// decimal digits.
pub fn parse_i64(s: &Vec<char>) -> (r: Option<i64>)
    ensures
        match r {
            Some(v) => i64_value(s@) == Some(v as int),
            None => i64_value(s@).is_none(),
        },
{
    let max: u64 = 9223372036854775807;
    if s.len() > 0 && s[0] == '-' {
        match parse_digits(s, 1, max + 1) {
            Some(v) => {
                let wide: i128 = -(v as i128);
                Some(wide as i64)
            },
            None => None,
        }
    } else if s.len() > 0 && s[0] == '+' {
        match parse_digits(s, 1, max) {
            Some(v) => Some(v as i64),
            None => None,
        }
    } else {
        proof {
            assert(s@.subrange(0, s.len() as int) =~= s@);
        }
        match parse_digits(s, 0, max) {
            Some(v) => Some(v as i64),
            None => None,
        }
    }
}

/// The value of a hexadecimal digit, in either case.
pub open spec fn hex_digit_value(c: char) -> Option<int> {
    if digit_value(c).is_some() {
        digit_value(c)
    } else if c == 'a' || c == 'A' {
        Some(10)
    } else if c == 'b' || c == 'B' {
        Some(11)
    } else if c == 'c' || c == 'C' {
        Some(12)
    } else if c == 'd' || c == 'D' {
        Some(13)
    } else if c == 'e' || c == 'E' {
        Some(14)
    } else if c == 'f' || c == 'F' {
        Some(15)
    } else {
        None
    }
}

/// The value of the hexadecimal digit `c`.
pub fn value_of_hex_digit(c: char) -> (r: Option<u8>)
    ensures
        match r {
            Some(d) => hex_digit_value(c) == Some(d as int) && d < 16,
            None => hex_digit_value(c).is_none(),
        },
{
    match value_of_digit(c) {
        Some(d) => Some(d),
        None => {
            if c == 'a' || c == 'A' {
                Some(10)
            } else if c == 'b' || c == 'B' {
                Some(11)
            } else if c == 'c' || c == 'C' {
                Some(12)
            } else if c == 'd' || c == 'D' {
                Some(13)
            } else if c == 'e' || c == 'E' {
                Some(14)
            } else if c == 'f' || c == 'F' {
                Some(15)
            } else {
                None
            }
        },
    }
}

/// How many characters at the start of `s`, from `i` on, are whitespace.
pub open spec fn leading_space(s: Seq<char>, i: int) -> int
    decreases s.len() - i,
{
    if 0 <= i < s.len() && whitespace(s[i]) {
        leading_space(s, i + 1)
    } else {
        i
    }
}

/// Where the trailing whitespace of the first `n` characters begins, not
/// before `low`.
pub open spec fn trailing_space(s: Seq<char>, low: int, n: int) -> int
    decreases n,
{
    if 0 <= low < n <= s.len() && whitespace(s[n - 1]) {
        trailing_space(s, low, n - 1)
    } else {
        n
    }
}

/// A text without its leading and trailing whitespace.
pub open spec fn trim(s: Seq<char>) -> Seq<char> {
    let start = leading_space(s, 0);
    let end = trailing_space(s, start, s.len() as int);
    if 0 <= start <= end <= s.len() {
        s.subrange(start, end)
    } else {
        Seq::<char>::empty()
    }
}

/// The 64-bit unsigned integer that `s` writes in decimal, with an optional
/// `+` in front, if it writes one that fits.
pub open spec fn u64_value(s: Seq<char>) -> Option<nat> {
    let digits = if s.len() > 0 && s[0] == '+' {
        s.subrange(1, s.len() as int)
    } else {
        s
    };
    match digits_value(digits) {
        Some(v) => if v <= u64::MAX {
            Some(v)
        } else {
            None
        },
        None => None,
    }
}

/// A text without its leading and trailing whitespace.
pub fn trim_exec(s: &Vec<char>) -> (r: Vec<char>)
    ensures
        r@ == trim(s@),
{
    let mut start: usize = 0;
    while start < s.len() && is_whitespace(s[start])
        invariant
            start <= s.len(),
            leading_space(s@, 0) == leading_space(s@, start as int),
        decreases s.len() - start,
    {
        start += 1;
    }
    let mut end: usize = s.len();
    while end > start && is_whitespace(s[end - 1])
        invariant
            start <= end <= s.len(),
            trailing_space(s@, start as int, s.len() as int) == trailing_space(
                s@,
                start as int,
                end as int,
            ),
        decreases end,
    {
        end -= 1;
    }
    slice_of(s, start, end)
}

/// The 64-bit unsigned integer that the text writes: an optional `+`, then
/// decimal digits.
pub fn parse_u64(s: &Vec<char>) -> (r: Option<u64>)
    ensures
        match r {
            Some(v) => u64_value(s@) == Some(v as nat),
            None => u64_value(s@).is_none(),
        },
{
    let max: u64 = 0xFFFF_FFFF_FFFF_FFFF;
    if s.len() > 0 && s[0] == '+' {
        parse_digits(s, 1, max)
    } else {
        proof {
            assert(s@.subrange(0, s.len() as int) =~= s@);
        }
        parse_digits(s, 0, max)
    }
}

} // verus!
