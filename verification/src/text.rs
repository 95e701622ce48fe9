use vstd::prelude::*;

verus! {

// ---------------------------------------------------------------------------
// Characters
// ---------------------------------------------------------------------------

pub open spec fn is_digit(c: char) -> bool {
    48 <= c as int && c as int <= 57
}

pub open spec fn digit_val(c: char) -> int {
    c as int - 48
}

/// Lower-case hexadecimal digit, as the service writes its tokens.
pub open spec fn is_hex_digit(c: char) -> bool {
    is_digit(c) || (97 <= c as int && c as int <= 102)
}

/// A "word" character: letter, digit or underscore.
pub open spec fn is_word_char(c: char) -> bool {
    is_digit(c)
        || (97 <= c as int && c as int <= 122)
        || (65 <= c as int && c as int <= 90)
        || c as int == 95
}

pub open spec fn is_space(c: char) -> bool {
    c as int == 32 || c as int == 9 || c as int == 10 || c as int == 13
}

/// ASCII-only case folding, the folding every matcher in this crate uses.
pub open spec fn lower_char(c: char) -> char {
    if 65 <= c as int && c as int <= 90 {
        (((c as int + 32) as u8) as char)
    } else {
        c
    }
}

pub open spec fn lower_seq(s: Seq<char>) -> Seq<char> {
    s.map_values(|c: char| lower_char(c))
}

pub fn exec_is_digit(c: char) -> (r: bool)
    ensures
        r == is_digit(c),
{
    let u = c as u32;
    48 <= u && u <= 57
}

pub fn exec_is_hex_digit(c: char) -> (r: bool)
    ensures
        r == is_hex_digit(c),
{
    let u = c as u32;
    (48 <= u && u <= 57) || (97 <= u && u <= 102)
}

pub fn exec_is_word_char(c: char) -> (r: bool)
    ensures
        r == is_word_char(c),
{
    let u = c as u32;
    (48 <= u && u <= 57) || (97 <= u && u <= 122) || (65 <= u && u <= 90) || u == 95
}

pub fn exec_is_space(c: char) -> (r: bool)
    ensures
        r == is_space(c),
{
    let u = c as u32;
    u == 32 || u == 9 || u == 10 || u == 13
}

pub fn exec_lower_char(c: char) -> (r: char)
    ensures
        r == lower_char(c),
{
    let u = c as u32;
    if 65 <= u && u <= 90 {
        ((c as u8) + 32) as char
    } else {
        c
    }
}

// ---------------------------------------------------------------------------
// Conversions between &str and Vec<char>
// ---------------------------------------------------------------------------

/// Copy a string into a character vector, the shape every scanner here reads.
pub fn chars_of(s: &str) -> (v: Vec<char>)
    ensures
        v@ == s@,
{
    let n = s.unicode_len();
    let mut v: Vec<char> = Vec::new();
    let mut i: usize = 0;
    while i < n
        invariant
            i <= n,
            n == s@.len(),
            v@ == s@.subrange(0, i as int),
        decreases n - i,
    {
        v.push(s.get_char(i));
        i += 1;
    }
    proof {
        assert(v@ =~= s@);
    }
    v
}

/// Materialize the characters `[from, to)` of `s` as an owned string.
pub fn extract(s: &str, from: usize, to: usize) -> (r: String)
    requires
        from <= to <= s@.len(),
    ensures
        r@ == s@.subrange(from as int, to as int),
{
    s.substring_char(from, to).to_owned()
}

/// An optional owned string holds exactly an optional character sequence.
pub open spec fn opt_view_is(o: Option<String>, v: Option<Seq<char>>) -> bool {
    match o {
        None => v is None,
        Some(x) => v == Some(x@),
    }
}

// ---------------------------------------------------------------------------
// Substring search
// ---------------------------------------------------------------------------

/// `pat` occurs in `s` starting at position `i`.
pub open spec fn match_at(s: Seq<char>, pat: Seq<char>, i: int) -> bool {
    &&& 0 <= i
    &&& i + pat.len() <= s.len()
    &&& forall|k: int| 0 <= k < pat.len() ==> s[i + k] == pat[k]
}

/// The first occurrence of `pat` in `s` at or after position `i`.
pub open spec fn find_from(s: Seq<char>, pat: Seq<char>, i: int) -> Option<int>
    decreases s.len() - i when 0 <= i <= s.len()
{
    if i + pat.len() > s.len() {
        None
    } else if match_at(s, pat, i) {
        Some(i)
    } else {
        find_from(s, pat, i + 1)
    }
}

pub open spec fn contains_seq(s: Seq<char>, pat: Seq<char>) -> bool {
    find_from(s, pat, 0) is Some
}

proof fn lemma_find_from_found(s: Seq<char>, pat: Seq<char>, i: int)
    requires
        0 <= i <= s.len(),
        match_at(s, pat, i),
    ensures
        find_from(s, pat, i) == Some(i),
{
}

pub proof fn lemma_find_from_is_match(s: Seq<char>, pat: Seq<char>, i: int, j: int)
    requires
        0 <= i <= s.len(),
        find_from(s, pat, i) == Some(j),
    ensures
        i <= j,
        match_at(s, pat, j),
    decreases s.len() - i,
{
    if i + pat.len() > s.len() {
    } else if match_at(s, pat, i) {
    } else {
        lemma_find_from_is_match(s, pat, i + 1, j);
    }
}

pub fn eq_at(s: &Vec<char>, i: usize, pat: &Vec<char>) -> (r: bool)
    requires
        i + pat@.len() <= s@.len(),
    ensures
        r == match_at(s@, pat@, i as int),
{
    let n = pat.len();
    let slen = s.len();
    let mut k: usize = 0;
    while k < n
        invariant
            k <= n,
            n == pat@.len(),
            slen == s@.len(),
            i + n <= slen,
            forall|m: int| 0 <= m < k ==> s@[i + m] == pat@[m],
        decreases n - k,
    {
        if s[i + k] != pat[k] {
            return false;
        }
        k += 1;
    }
    true
}

/// The naive left-to-right scan for `pat` within `s`, starting at `from`.
pub fn find_sub(s: &Vec<char>, pat: &Vec<char>, from: usize) -> (r: Option<usize>)
    requires
        from <= s@.len(),
    ensures
        match r {
            Some(j) => find_from(s@, pat@, from as int) == Some(j as int) && j + pat@.len()
                <= s@.len() && from <= j,
            None => find_from(s@, pat@, from as int) is None,
        },
{
    let slen = s.len();
    let plen = pat.len();
    if plen > slen {
        return None;
    }
    if plen == 0 {
        proof {
            lemma_find_from_found(s@, pat@, from as int);
        }
        return Some(from);
    }
    let lim = slen - plen;
    if from > lim {
        return None;
    }
    let mut i = from;
    while i <= lim
        invariant
            from <= i <= lim + 1,
            1 <= plen,
            lim == slen - plen,
            slen == s@.len(),
            plen == pat@.len(),
            find_from(s@, pat@, from as int) == find_from(s@, pat@, i as int),
        decreases slen - i,
    {
        if eq_at(s, i, pat) {
            proof {
                lemma_find_from_found(s@, pat@, i as int);
            }
            return Some(i);
        }
        i += 1;
    }
    proof {
        assert(i + plen > slen);
        assert(find_from(s@, pat@, i as int) is None);
    }
    None
}

pub fn contains_sub(s: &Vec<char>, pat: &Vec<char>) -> (r: bool)
    ensures
        r == contains_seq(s@, pat@),
{
    find_sub(s, pat, 0).is_some()
}

// ---------------------------------------------------------------------------
// Single-character search and character-class runs
// ---------------------------------------------------------------------------

/// The first position at or after `i` holding exactly the character `c`.
pub open spec fn find_char_from(s: Seq<char>, c: char, i: int) -> Option<int>
    decreases s.len() - i when 0 <= i <= s.len()
{
    if i >= s.len() {
        None
    } else if s[i] == c {
        Some(i)
    } else {
        find_char_from(s, c, i + 1)
    }
}

pub proof fn lemma_find_char_from_is_match(s: Seq<char>, c: char, i: int, j: int)
    requires
        0 <= i <= s.len(),
        find_char_from(s, c, i) == Some(j),
    ensures
        i <= j < s.len(),
        s[j] == c,
        forall|k: int| i <= k < j ==> s[k] != c,
    decreases s.len() - i,
{
    if i >= s.len() {
    } else if s[i] == c {
    } else {
        lemma_find_char_from_is_match(s, c, i + 1, j);
    }
}

pub fn find_char(s: &Vec<char>, c: char, from: usize) -> (r: Option<usize>)
    requires
        from <= s@.len(),
    ensures
        match r {
            Some(j) => find_char_from(s@, c, from as int) == Some(j as int) && from <= j
                && j < s@.len(),
            None => find_char_from(s@, c, from as int) is None,
        },
{
    let n = s.len();
    let mut i = from;
    while i < n
        invariant
            from <= i <= n,
            n == s@.len(),
            find_char_from(s@, c, from as int) == find_char_from(s@, c, i as int),
        decreases n - i,
    {
        if s[i] == c {
            return Some(i);
        }
        i += 1;
    }
    None
}

/// End of the run of characters satisfying `cls` that begins at `i`.
/// The classes are numbered: 0 digits, 1 lower-case hex digits, 2 word
/// characters, 3 word characters and `-`, 4 digits and `-`, 5 whitespace,
/// 6 digits and lower-case letters.
pub open spec fn in_class(cls: int, c: char) -> bool {
    if cls == 0 {
        is_digit(c)
    } else if cls == 1 {
        is_hex_digit(c)
    } else if cls == 2 {
        is_word_char(c)
    } else if cls == 3 {
        is_word_char(c) || c as int == 45
    } else if cls == 4 {
        is_digit(c) || c as int == 45
    } else if cls == 5 {
        is_space(c)
    } else {
        is_digit(c) || (97 <= c as int && c as int <= 122)
    }
}

pub open spec fn class_end(s: Seq<char>, cls: int, i: int) -> int
    decreases s.len() - i when 0 <= i <= s.len()
{
    if i == s.len() {
        i
    } else if !in_class(cls, s[i]) {
        i
    } else {
        class_end(s, cls, i + 1)
    }
}

pub proof fn lemma_class_end_bounds(s: Seq<char>, cls: int, i: int)
    requires
        0 <= i <= s.len(),
    ensures
        i <= class_end(s, cls, i) <= s.len(),
        forall|k: int| i <= k < class_end(s, cls, i) ==> in_class(cls, s[k]),
        class_end(s, cls, i) < s.len() ==> !in_class(cls, s[class_end(s, cls, i)]),
    decreases s.len() - i,
{
    if i == s.len() {
    } else if !in_class(cls, s[i]) {
    } else {
        lemma_class_end_bounds(s, cls, i + 1);
    }
}

fn exec_in_class(cls: usize, c: char) -> (r: bool)
    requires
        cls <= 6,
    ensures
        r == in_class(cls as int, c),
{
    let u = c as u32;
    if cls == 0 {
        exec_is_digit(c)
    } else if cls == 1 {
        exec_is_hex_digit(c)
    } else if cls == 2 {
        exec_is_word_char(c)
    } else if cls == 3 {
        exec_is_word_char(c) || u == 45
    } else if cls == 4 {
        exec_is_digit(c) || u == 45
    } else if cls == 5 {
        exec_is_space(c)
    } else {
        exec_is_digit(c) || (97 <= u && u <= 122)
    }
}

pub fn exec_class_end(s: &Vec<char>, cls: usize, i: usize) -> (r: usize)
    requires
        cls <= 6,
        i <= s@.len(),
    ensures
        r == class_end(s@, cls as int, i as int),
        i <= r <= s@.len(),
{
    let n = s.len();
    let mut j = i;
    while j < n && exec_in_class(cls, s[j])
        invariant
            i <= j <= n,
            n == s@.len(),
            cls <= 6,
            class_end(s@, cls as int, i as int) == class_end(s@, cls as int, j as int),
        decreases n - j,
    {
        j += 1;
    }
    j
}

// ---------------------------------------------------------------------------
// A digit run followed by a literal suffix
// ---------------------------------------------------------------------------

/// The first maximal digit run at or after `i` whose end is immediately
/// followed by `suf`; yields the bounds of the run.  This is how the style
/// decoders find tokens such as an offset in pixels or a page count.
pub open spec fn num_before_from(s: Seq<char>, suf: Seq<char>, i: int) -> Option<(int, int)>
    decreases s.len() - i when 0 <= i <= s.len()
{
    if i >= s.len() {
        None
    } else if is_digit(s[i]) {
        let e = digits_end(s, i);
        if match_at(s, suf, e) {
            Some((i, e))
        } else {
            num_before_from(s, suf, i + 1)
        }
    } else {
        num_before_from(s, suf, i + 1)
    }
}

pub proof fn lemma_num_before_props(s: Seq<char>, suf: Seq<char>, i: int, a: int, e: int)
    requires
        0 <= i <= s.len(),
        num_before_from(s, suf, i) == Some((a, e)),
    ensures
        i <= a < e <= s.len(),
        match_at(s, suf, e),
        forall|k: int| a <= k < e ==> is_digit(s[k]),
    decreases s.len() - i,
{
    if i >= s.len() {
    } else if is_digit(s[i]) {
        let de = digits_end(s, i);
        lemma_digits_end_bounds(s, i);
        if match_at(s, suf, de) {
        } else {
            lemma_num_before_props(s, suf, i + 1, a, e);
        }
    } else {
        lemma_num_before_props(s, suf, i + 1, a, e);
    }
}

pub fn find_num_before(s: &Vec<char>, suf: &Vec<char>, from: usize) -> (r: Option<(usize, usize)>)
    requires
        from <= s@.len(),
    ensures
        match r {
            Some(p) => num_before_from(s@, suf@, from as int) == Some((p.0 as int, p.1 as int))
                && from <= p.0 < p.1 <= s@.len(),
            None => num_before_from(s@, suf@, from as int) is None,
        },
{
    let n = s.len();
    let mut i = from;
    while i < n
        invariant
            from <= i <= n,
            n == s@.len(),
            num_before_from(s@, suf@, from as int) == num_before_from(s@, suf@, i as int),
        decreases n - i,
    {
        if exec_is_digit(s[i]) {
            let e = exec_digits_end(s, i);
            proof {
                lemma_digits_end_bounds(s@, i as int);
            }
            let matches_suf = if suf.len() <= n - e {
                eq_at(s, e, suf)
            } else {
                false
            };
            if matches_suf {
                return Some((i, e));
            }
        }
        i += 1;
    }
    None
}

// ---------------------------------------------------------------------------
// Case-insensitive equality
// ---------------------------------------------------------------------------

/// Exact equality of two character vectors.
pub fn eq_chars(a: &Vec<char>, b: &Vec<char>) -> (r: bool)
    ensures
        r == (a@ == b@),
{
    if a.len() != b.len() {
        return false;
    }
    let n = a.len();
    let mut i: usize = 0;
    while i < n
        invariant
            i <= n,
            n == a@.len() == b@.len(),
            forall|k: int| 0 <= k < i ==> a@[k] == b@[k],
        decreases n - i,
    {
        if a[i] != b[i] {
            return false;
        }
        i += 1;
    }
    proof {
        assert(a@ =~= b@);
    }
    true
}

/// Equality of two character sequences after ASCII case folding.
pub fn eq_ignore_case(a: &Vec<char>, b: &Vec<char>) -> (r: bool)
    ensures
        r == (lower_seq(a@) == lower_seq(b@)),
{
    if a.len() != b.len() {
        proof {
            assert(lower_seq(a@).len() == a@.len());
            assert(lower_seq(b@).len() == b@.len());
        }
        return false;
    }
    let n = a.len();
    let mut i: usize = 0;
    while i < n
        invariant
            i <= n,
            n == a@.len() == b@.len(),
            forall|k: int| 0 <= k < i ==> lower_char(a@[k]) == lower_char(b@[k]),
        decreases n - i,
    {
        if exec_lower_char(a[i]) != exec_lower_char(b[i]) {
            proof {
                assert(lower_seq(a@)[i as int] != lower_seq(b@)[i as int]);
            }
            return false;
        }
        i += 1;
    }
    proof {
        assert(lower_seq(a@) =~= lower_seq(b@));
    }
    true
}

// ---------------------------------------------------------------------------
// Digit runs and numeric values
// ---------------------------------------------------------------------------

pub open spec fn all_digits(s: Seq<char>) -> bool {
    forall|k: int| 0 <= k < s.len() ==> is_digit(s[k])
}

/// Decimal value of an all-digit sequence, accumulated left to right.
pub open spec fn num_val(s: Seq<char>) -> nat
    decreases s.len(),
{
    if s.len() == 0 {
        0
    } else {
        num_val(s.drop_last()) * 10 + (if is_digit(s.last()) {
            digit_val(s.last())
        } else {
            0
        }) as nat
    }
}

/// End of the digit run beginning at `i`: the first index at or after `i`
/// holding a non-digit, or the length of `s`.
pub open spec fn digits_end(s: Seq<char>, i: int) -> int
    decreases s.len() - i when 0 <= i <= s.len()
{
    if i == s.len() {
        i
    } else if !is_digit(s[i]) {
        i
    } else {
        digits_end(s, i + 1)
    }
}

pub proof fn lemma_digits_end_bounds(s: Seq<char>, i: int)
    requires
        0 <= i <= s.len(),
    ensures
        i <= digits_end(s, i) <= s.len(),
        forall|k: int| i <= k < digits_end(s, i) ==> is_digit(s[k]),
        digits_end(s, i) < s.len() ==> !is_digit(s[digits_end(s, i)]),
    decreases s.len() - i,
{
    if i == s.len() {
    } else if !is_digit(s[i]) {
    } else {
        lemma_digits_end_bounds(s, i + 1);
    }
}

pub fn exec_digits_end(s: &Vec<char>, i: usize) -> (r: usize)
    requires
        i <= s@.len(),
    ensures
        r == digits_end(s@, i as int),
        i <= r <= s@.len(),
{
    let n = s.len();
    let mut j = i;
    while j < n && exec_is_digit(s[j])
        invariant
            i <= j <= n,
            n == s@.len(),
            digits_end(s@, i as int) == digits_end(s@, j as int),
        decreases n - j,
    {
        j += 1;
    }
    j
}

proof fn lemma_num_val_grows(s: Seq<char>, i: int, j: int)
    requires
        0 <= i <= j <= s.len(),
    ensures
        num_val(s.subrange(i, j)) <= num_val(s.subrange(i, s.len() as int)),
    decreases s.len() - j,
{
    if j < s.len() {
        let a = s.subrange(i, j);
        let b = s.subrange(i, j + 1);
        assert(b.drop_last() =~= a);
        assert(num_val(b) >= num_val(a)) by {
            assert(num_val(b) == num_val(a) * 10 + (if is_digit(b.last()) {
                digit_val(b.last())
            } else {
                0
            }) as nat);
        }
        lemma_num_val_grows(s, i, j + 1);
    } else {
        assert(s.subrange(i, j) =~= s.subrange(i, s.len() as int));
    }
}

/// Value of the digits `[from, to)` of `s`, or `None` when it exceeds `u64`.
pub fn parse_u64_range(s: &Vec<char>, from: usize, to: usize) -> (r: Option<u64>)
    requires
        from <= to <= s@.len(),
    ensures
        match r {
            Some(v) => v == num_val(s@.subrange(from as int, to as int)),
            None => num_val(s@.subrange(from as int, to as int)) > u64::MAX,
        },
{
    let mut v: u64 = 0;
    let mut i = from;
    while i < to
        invariant
            from <= i <= to <= s@.len(),
            v == num_val(s@.subrange(from as int, i as int)),
        decreases to - i,
    {
        let c = s[i];
        let d: u64 = if exec_is_digit(c) {
            (c as u32 as u64) - 48
        } else {
            0
        };
        proof {
            assert(s@.subrange(from as int, i + 1).drop_last() =~= s@.subrange(
                from as int,
                i as int,
            ));
        }
        if v > (u64::MAX - d) / 10 {
            proof {
                let part = s@.subrange(from as int, i + 1);
                assert(num_val(part) == v * 10 + (if is_digit(part.last()) {
                    digit_val(part.last())
                } else {
                    0
                }) as nat);
                assert(num_val(part) > u64::MAX);
                lemma_num_val_grows(s@.subrange(from as int, to as int), 0, i + 1 - from);
                assert(s@.subrange(from as int, to as int).subrange(0, i + 1 - from) =~= part);
                assert(s@.subrange(from as int, to as int).subrange(
                    0,
                    s@.subrange(from as int, to as int).len() as int,
                ) =~= s@.subrange(from as int, to as int));
            }
            return None;
        }
        v = v * 10 + d;
        i += 1;
    }
    Some(v)
}

/// The first position at or after `i` holding a digit.
pub open spec fn first_digit_from(s: Seq<char>, i: int) -> Option<int>
    decreases s.len() - i when 0 <= i <= s.len()
{
    if i >= s.len() {
        None
    } else if is_digit(s[i]) {
        Some(i)
    } else {
        first_digit_from(s, i + 1)
    }
}

pub fn exec_first_digit(s: &Vec<char>, from: usize) -> (r: Option<usize>)
    requires
        from <= s@.len(),
    ensures
        match r {
            Some(j) => first_digit_from(s@, from as int) == Some(j as int) && from <= j
                && j < s@.len() && is_digit(s@[j as int]),
            None => first_digit_from(s@, from as int) is None,
        },
{
    let n = s.len();
    let mut i = from;
    while i < n
        invariant
            from <= i <= n,
            n == s@.len(),
            first_digit_from(s@, from as int) == first_digit_from(s@, i as int),
        decreases n - i,
    {
        if exec_is_digit(s[i]) {
            return Some(i);
        }
        i += 1;
    }
    None
}

/// The signed decimal value of a whole sequence: an optional minus sign,
/// then digits and nothing else.
pub open spec fn int_val_of(s: Seq<char>) -> Option<int> {
    if s.len() == 0 {
        None
    } else if s[0] == '-' {
        if s.len() > 1 && digits_end(s, 1) == s.len() {
            Some(-num_val(s.subrange(1, s.len() as int)))
        } else {
            None
        }
    } else {
        if digits_end(s, 0) == s.len() {
            Some(num_val(s) as int)
        } else {
            None
        }
    }
}

/// The signed value of the characters `[from, to)`; `None` when the text
/// is not a plain signed number or its magnitude exceeds `i64::MAX`.
pub fn parse_i64_range(s: &Vec<char>, from: usize, to: usize) -> (r: Option<i64>)
    requires
        from <= to <= s@.len(),
    ensures
        match r {
            Some(x) => int_val_of(s@.subrange(from as int, to as int)) == Some(x as int),
            None => ({
                ||| int_val_of(s@.subrange(from as int, to as int)) is None
                ||| (int_val_of(s@.subrange(from as int, to as int)) matches Some(x) && (x
                    > i64::MAX || x < -(i64::MAX as int)))
            }),
        },
{
    let ghost whole = s@.subrange(from as int, to as int);
    if from == to {
        return None;
    }
    if s[from] == '-' {
        if !(to - from > 1 && exec_digits_end(s, from + 1) >= to) {
            proof {
                lemma_digits_end_shift(s@, from as int, from + 1, to as int);
            }
            return None;
        }
        proof {
            lemma_digits_end_shift(s@, from as int, from + 1, to as int);
            assert(whole.subrange(1, whole.len() as int) =~= s@.subrange(from + 1, to as int));
        }
        match parse_u64_range(s, from + 1, to) {
            None => None,
            Some(x) => {
                if x > i64::MAX as u64 {
                    return None;
                }
                Some(-(x as i64))
            },
        }
    } else {
        if !(exec_digits_end(s, from) >= to) {
            proof {
                lemma_digits_end_shift(s@, from as int, from as int, to as int);
            }
            return None;
        }
        proof {
            lemma_digits_end_shift(s@, from as int, from as int, to as int);
        }
        match parse_u64_range(s, from, to) {
            None => None,
            Some(x) => {
                if x > i64::MAX as u64 {
                    return None;
                }
                Some(x as i64)
            },
        }
    }
}

/// The digit run of the window `[lo, hi)` of `s`, seen from inside the
/// window, mirrors the run seen in `s` itself.
proof fn lemma_digits_end_shift(s: Seq<char>, lo: int, at: int, hi: int)
    requires
        0 <= lo <= at <= hi <= s.len(),
    ensures
        digits_end(s.subrange(lo, hi), at - lo) == hi - lo <==> digits_end(s, at) >= hi,
    decreases hi - at,
{
    let w = s.subrange(lo, hi);
    if at == hi {
        lemma_digits_end_bounds(s, at);
    } else if is_digit(s[at]) {
        lemma_digits_end_shift(s, lo, at + 1, hi);
    } else {
        lemma_digits_end_bounds(s, at);
    }
}

// ---------------------------------------------------------------------------
// Anchored captures: a literal anchor, a capture up to a delimiter, and a
// literal right after the delimiter.  When the text after one anchor does
// not fit, the scan retries from the next occurrence of the anchor.
// ---------------------------------------------------------------------------

pub open spec fn capture_with_suffix_from(
    s: Seq<char>,
    pre: Seq<char>,
    delim: char,
    suf: Seq<char>,
    i: int,
) -> Option<(int, int)>
    decreases s.len() - i when 0 <= i <= s.len()
{
    match find_from(s, pre, i) {
        None => None,
        Some(p) => {
            let c0 = p + pre.len();
            match find_char_from(s, delim, c0) {
                None => None,
                Some(d) => if d > c0 && match_at(s, suf, d + 1) {
                    Some((c0, d))
                } else if i + 1 <= s.len() {
                    capture_with_suffix_from(s, pre, delim, suf, i + 1)
                } else {
                    None
                },
            }
        },
    }
}

proof fn lemma_capture_step(s: Seq<char>, pre: Seq<char>, delim: char, suf: Seq<char>, i: int, p: int)
    requires
        0 <= i <= s.len(),
        pre.len() > 0,
        find_from(s, pre, i) == Some(p),
        find_char_from(s, delim, p + pre.len()) matches Some(d) && !(d > p + pre.len() && match_at(
            s,
            suf,
            d + 1,
        )),
    ensures
        capture_with_suffix_from(s, pre, delim, suf, i) == capture_with_suffix_from(
            s,
            pre,
            delim,
            suf,
            p + 1,
        ),
    decreases p - i,
{
    lemma_find_from_is_match(s, pre, i, p);
    if i < p {
        lemma_capture_step(s, pre, delim, suf, i + 1, p);
    }
}

pub fn capture_with_suffix(
    s: &Vec<char>,
    pre: &Vec<char>,
    delim: char,
    suf: &Vec<char>,
    from: usize,
) -> (r: Option<(usize, usize)>)
    requires
        from <= s@.len(),
        pre@.len() > 0,
    ensures
        match r {
            Some(c) => capture_with_suffix_from(s@, pre@, delim, suf@, from as int) == Some(
                (c.0 as int, c.1 as int),
            ) && from <= c.0 <= c.1 && c.1 < s@.len(),
            None => capture_with_suffix_from(s@, pre@, delim, suf@, from as int) is None,
        },
{
    let n = s.len();
    let mut i = from;
    loop
        invariant
            from <= i <= n,
            n == s@.len(),
            pre@.len() > 0,
            capture_with_suffix_from(s@, pre@, delim, suf@, from as int)
                == capture_with_suffix_from(s@, pre@, delim, suf@, i as int),
        decreases n - i,
    {
        let p = match find_sub(s, pre, i) {
            None => {
                return None;
            },
            Some(p) => p,
        };
        let c0 = p + pre.len();
        let d = match find_char(s, delim, c0) {
            None => {
                return None;
            },
            Some(d) => d,
        };
        let suffix_fits = if suf.len() <= n - (d + 1) {
            eq_at(s, d + 1, suf)
        } else {
            false
        };
        if d > c0 && suffix_fits {
            return Some((c0, d));
        }
        proof {
            lemma_capture_step(s@, pre@, delim, suf@, i as int, p as int);
        }
        i = p + 1;
    }
}

// ---------------------------------------------------------------------------
// Backward trimming and entity unescaping
// ---------------------------------------------------------------------------

/// Move `e` left over whitespace, not below `lo`.
pub open spec fn trim_back(s: Seq<char>, lo: int, e: int) -> int
    decreases e - lo when 0 <= lo <= e
{
    if e > lo && e <= s.len() && is_space(s[e - 1]) {
        trim_back(s, lo, e - 1)
    } else {
        e
    }
}

pub fn exec_trim_back(s: &Vec<char>, lo: usize, e: usize) -> (r: usize)
    requires
        lo <= e <= s@.len(),
    ensures
        r == trim_back(s@, lo as int, e as int),
        lo <= r <= e,
{
    let mut j = e;
    while j > lo && exec_is_space(s[j - 1])
        invariant
            lo <= j <= e <= s@.len(),
            trim_back(s@, lo as int, e as int) == trim_back(s@, lo as int, j as int),
        decreases j,
    {
        j -= 1;
    }
    j
}

/// The five standard markup entities decoded, every other character kept.
pub open spec fn unescape_from(s: Seq<char>, i: int) -> Seq<char>
    decreases s.len() - i when 0 <= i <= s.len()
{
    if i >= s.len() {
        Seq::<char>::empty()
    } else if s[i] == '&' && match_at(s, "amp;"@, i + 1) {
        seq!['&'] + unescape_from(s, i + 1 + "amp;"@.len())
    } else if s[i] == '&' && match_at(s, "lt;"@, i + 1) {
        seq!['<'] + unescape_from(s, i + 1 + "lt;"@.len())
    } else if s[i] == '&' && match_at(s, "gt;"@, i + 1) {
        seq!['>'] + unescape_from(s, i + 1 + "gt;"@.len())
    } else if s[i] == '&' && match_at(s, "quot;"@, i + 1) {
        seq!['"'] + unescape_from(s, i + 1 + "quot;"@.len())
    } else if s[i] == '&' && match_at(s, "#39;"@, i + 1) {
        seq!['\''] + unescape_from(s, i + 1 + "#39;"@.len())
    } else {
        seq![s[i]] + unescape_from(s, i + 1)
    }
}

/// Decode the five standard markup entities of `s`.
pub fn unescape(s: &str) -> (r: String)
    ensures
        r@ == unescape_from(s@, 0),
{
    let v = chars_of(s);
    let n = v.len();
    let mut out = String::new();
    let amp_tail = chars_of("amp;");
    let lt_tail = chars_of("lt;");
    let gt_tail = chars_of("gt;");
    let quot_tail = chars_of("quot;");
    let apos_tail = chars_of("#39;");
    let mut i: usize = 0;
    while i < n
        invariant
            0 <= i <= n,
            n == v@.len(),
            v@ == s@,
            amp_tail@ == "amp;"@,
            lt_tail@ == "lt;"@,
            gt_tail@ == "gt;"@,
            quot_tail@ == "quot;"@,
            apos_tail@ == "#39;"@,
            out@ + unescape_from(s@, i as int) == unescape_from(s@, 0),
        decreases n - i,
    {
        let ghost pre = out@;
        let next: usize = if v[i] == '&' && amp_tail.len() <= n - (i + 1) && eq_at(
            &v,
            i + 1,
            &amp_tail,
        ) {
            out.append("&");
            proof {
                reveal_strlit("&");
                assert(out@ =~= pre + seq!['&']);
            }
            i + 1 + amp_tail.len()
        } else if v[i] == '&' && lt_tail.len() <= n - (i + 1) && eq_at(&v, i + 1, &lt_tail) {
            out.append("<");
            proof {
                reveal_strlit("<");
                assert(out@ =~= pre + seq!['<']);
            }
            i + 1 + lt_tail.len()
        } else if v[i] == '&' && gt_tail.len() <= n - (i + 1) && eq_at(&v, i + 1, &gt_tail) {
            out.append(">");
            proof {
                reveal_strlit(">");
                assert(out@ =~= pre + seq!['>']);
            }
            i + 1 + gt_tail.len()
        } else if v[i] == '&' && quot_tail.len() <= n - (i + 1) && eq_at(&v, i + 1, &quot_tail) {
            out.append("\"");
            proof {
                reveal_strlit("\"");
                assert(out@ =~= pre + seq!['"']);
            }
            i + 1 + quot_tail.len()
        } else if v[i] == '&' && apos_tail.len() <= n - (i + 1) && eq_at(&v, i + 1, &apos_tail) {
            out.append("'");
            proof {
                reveal_strlit("'");
                assert(out@ =~= pre + seq!['\'']);
            }
            i + 1 + apos_tail.len()
        } else {
            out.append(s.substring_char(i, i + 1));
            proof {
                assert(out@ =~= pre + seq![s@[i as int]]);
            }
            i + 1
        };
        proof {
            assert(pre + unescape_from(s@, i as int) =~= out@ + unescape_from(s@, next as int));
        }
        i = next;
    }
    proof {
        assert(out@ =~= unescape_from(s@, 0));
    }
    out
}

// ---------------------------------------------------------------------------
// Decimal fractions, held in hundredths
// ---------------------------------------------------------------------------

/// The first position at or after `i` where an unsigned decimal number
/// begins: a digit, or a point directly followed by a digit.
pub open spec fn dec_start_from(s: Seq<char>, i: int) -> Option<int>
    decreases s.len() - i when 0 <= i <= s.len()
{
    if i >= s.len() {
        None
    } else if is_digit(s[i]) || (s[i] == '.' && i + 1 < s.len() && is_digit(s[i + 1])) {
        Some(i)
    } else {
        dec_start_from(s, i + 1)
    }
}

/// Bounds of the first decimal number at or after `i`: integer part and
/// fraction part, either of which may be empty (not both).
pub open spec fn decimal_at(s: Seq<char>, i: int) -> Option<((int, int), (int, int))> {
    match dec_start_from(s, i) {
        None => None,
        Some(p) => {
            if s[p] == '.' {
                Some(((p, p), (p + 1, digits_end(s, p + 1))))
            } else {
                let ie = digits_end(s, p);
                if ie < s.len() && s[ie] == '.' && ie + 1 < s.len() && is_digit(s[ie + 1]) {
                    Some(((p, ie), (ie + 1, digits_end(s, ie + 1))))
                } else {
                    Some(((p, ie), (ie, ie)))
                }
            }
        },
    }
}

/// The value of an integer part and a fraction part in hundredths,
/// truncated beyond two fraction digits.
pub open spec fn centi_val(ipart: Seq<char>, fpart: Seq<char>) -> nat {
    num_val(ipart) * 100 + (if fpart.len() == 0 {
        0
    } else if fpart.len() == 1 {
        num_val(fpart) * 10
    } else {
        num_val(fpart.subrange(0, 2))
    })
}

pub proof fn lemma_num_val_bounded(s: Seq<char>)
    ensures
        s.len() <= 1 ==> num_val(s) <= 9,
        s.len() <= 2 ==> num_val(s) <= 99,
        s.len() <= 3 ==> num_val(s) <= 999,
        s.len() <= 4 ==> num_val(s) <= 9999,
    decreases s.len(),
{
    if s.len() > 0 {
        lemma_num_val_bounded(s.drop_last());
    }
}

/// Scan the first decimal number at or after `from` and return its value
/// in hundredths; `None` when the text holds no number at or after `from`,
/// `Some(Err(()))` when the value does not fit.
pub fn scan_centi(s: &Vec<char>, from: usize) -> (r: Option<Result<i64, ()>>)
    requires
        from <= s@.len(),
    ensures
        decimal_at(s@, from as int) is None <==> r is None,
        decimal_at(s@, from as int) matches Some(parts) ==> ({
            let v = centi_val(
                s@.subrange(parts.0.0, parts.0.1),
                s@.subrange(parts.1.0, parts.1.1),
            );
            if v > i64::MAX {
                r == Some(Err::<i64, ()>(()))
            } else {
                r == Some(Ok::<i64, ()>(v as i64))
            }
        }),
{
    let n = s.len();
    let mut i = from;
    while i < n && !(exec_is_digit(s[i]) || (s[i] == '.' && i + 1 < n && exec_is_digit(s[i + 1])))
        invariant
            from <= i <= n,
            n == s@.len(),
            dec_start_from(s@, from as int) == dec_start_from(s@, i as int),
        decreases n - i,
    {
        i += 1;
    }
    if i >= n {
        return None;
    }
    let p = i;
    let (i0, i1, f0, f1): (usize, usize, usize, usize) = if s[p] == '.' {
        let fe = exec_digits_end(s, p + 1);
        (p, p, p + 1, fe)
    } else {
        let ie = exec_digits_end(s, p);
        proof {
            lemma_digits_end_bounds(s@, p as int);
        }
        if ie < n && s[ie] == '.' && ie + 1 < n && exec_is_digit(s[ie + 1]) {
            let fe = exec_digits_end(s, ie + 1);
            (p, ie, ie + 1, fe)
        } else {
            (p, ie, ie, ie)
        }
    };
    proof {
        lemma_digits_end_bounds(s@, f0 as int);
    }
    let iv = match parse_u64_range(s, i0, i1) {
        None => {
            return Some(Err(()));
        },
        Some(x) => x,
    };
    let fv: u64 = if f1 == f0 {
        0
    } else if f1 - f0 == 1 {
        proof {
            lemma_num_val_bounded(s@.subrange(f0 as int, f1 as int));
        }
        match parse_u64_range(s, f0, f1) {
            None => 0,
            Some(x) => x * 10,
        }
    } else {
        proof {
            lemma_num_val_bounded(s@.subrange(f0 as int, f0 + 2));
        }
        proof {
            assert(s@.subrange(f0 as int, f0 + 2) =~= s@.subrange(f0 as int, f1 as int).subrange(
                0,
                2,
            ));
        }
        match parse_u64_range(s, f0, f0 + 2) {
            None => 0,
            Some(x) => x,
        }
    };
    if iv > (i64::MAX as u64 - fv) / 100 {
        proof {
            assert(centi_val(s@.subrange(i0 as int, i1 as int), s@.subrange(f0 as int, f1 as int))
                > i64::MAX);
        }
        return Some(Err(()));
    }
    Some(Ok((iv * 100 + fv) as i64))
}

// ---------------------------------------------------------------------------
// Decimal rendering
// ---------------------------------------------------------------------------

pub open spec fn digit_char(d: int) -> char {
    ((48 + d) as u8) as char
}

/// The usual decimal rendering of `n`, most significant digit first.
pub open spec fn dec_str(n: nat) -> Seq<char>
    decreases n,
{
    if n < 10 {
        seq![digit_char(n as int)]
    } else {
        dec_str(n / 10) + seq![digit_char((n % 10) as int)]
    }
}

fn digit_str(d: u64) -> (r: &'static str)
    requires
        d < 10,
    ensures
        r@ =~= seq![digit_char(d as int)],
{
    let r = match d {
        0 => "0",
        1 => "1",
        2 => "2",
        3 => "3",
        4 => "4",
        5 => "5",
        6 => "6",
        7 => "7",
        8 => "8",
        _ => "9",
    };
    proof {
        reveal_strlit("0");
        reveal_strlit("1");
        reveal_strlit("2");
        reveal_strlit("3");
        reveal_strlit("4");
        reveal_strlit("5");
        reveal_strlit("6");
        reveal_strlit("7");
        reveal_strlit("8");
        reveal_strlit("9");
    }
    r
}

/// Append the decimal rendering of `n` to `out`.
pub fn push_dec(out: &mut String, n: u64)
    ensures
        final(out)@ == old(out)@ + dec_str(n as nat),
    decreases n,
{
    if n >= 10 {
        push_dec(out, n / 10);
        out.append(digit_str(n % 10));
        proof {
            assert(old(out)@ + dec_str((n / 10) as nat) + seq![digit_char((n % 10) as int)]
                =~= old(out)@ + dec_str(n as nat));
        }
    } else {
        out.append(digit_str(n));
    }
}

} // verus!
