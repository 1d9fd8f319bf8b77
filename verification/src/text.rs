//! The few things about text that formatting a block leans on: what counts as
//! whitespace, what trimming leaves, and how a number is written.
//!
//! Each of them is written here against a definition that says what it means,
//! so that what [`format`](crate::format) builds can be stated in terms of the
//! characters that went in.
use vstd::prelude::*;

verus! {

/// Whether `c` is whitespace in the sense `char::is_whitespace` uses: the
/// Unicode `White_Space` property.
pub open spec fn is_space(c: char) -> bool {
    let u = c as u32;
    ||| 0x09 <= u <= 0x0d
    ||| u == 0x20
    ||| u == 0x85
    ||| u == 0xa0
    ||| u == 0x1680
    ||| 0x2000 <= u <= 0x200a
    ||| u == 0x2028
    ||| u == 0x2029
    ||| u == 0x202f
    ||| u == 0x205f
    ||| u == 0x3000
}

/// Whether every character of `s` is whitespace, which is what it takes for
/// `s.trim()` to be empty.
pub open spec fn is_blank(s: Seq<char>) -> bool {
    forall|i: int| 0 <= i < s.len() ==> #[trigger] is_space(s[i])
}

/// `s` with its trailing whitespace removed.
pub open spec fn trim_end(s: Seq<char>) -> Seq<char>
    decreases s.len(),
{
    if s.len() > 0 && is_space(s.last()) {
        trim_end(s.drop_last())
    } else {
        s
    }
}

/// `s` with its leading whitespace removed.
pub open spec fn trim_start(s: Seq<char>) -> Seq<char>
    decreases s.len(),
{
    if s.len() > 0 && is_space(s[0]) {
        trim_start(s.drop_first())
    } else {
        s
    }
}

/// `s` with whitespace removed from both ends.
pub open spec fn trim(s: Seq<char>) -> Seq<char> {
    trim_start(trim_end(s))
}

/// The decimal digits of `n`, most significant first.
pub open spec fn digits(n: nat) -> Seq<char>
    decreases n,
{
    if n < 10 {
        seq![digit(n)]
    } else {
        digits(n / 10).push(digit(n % 10))
    }
}

/// The character for one decimal digit.
pub open spec fn digit(d: nat) -> char {
    seq!['0', '1', '2', '3', '4', '5', '6', '7', '8', '9'][d as int]
}

/// `n` as `i32::to_string` writes it: a minus sign for a negative number, then
/// the digits of its magnitude.
pub open spec fn decimal(n: int) -> Seq<char> {
    if n < 0 {
        seq!['-'] + digits((-n) as nat)
    } else {
        digits(n as nat)
    }
}

/// `count` backticks in a row.
pub open spec fn backticks(count: nat) -> Seq<char> {
    Seq::new(count, |i: int| '`')
}

/// Trimming the end leaves a prefix of what was there.
pub proof fn lemma_trim_end_is_prefix(s: Seq<char>)
    ensures
        trim_end(s).len() <= s.len(),
        trim_end(s) =~= s.take(trim_end(s).len() as int),
        trim_end(s).len() > 0 ==> !is_space(trim_end(s).last()),
    decreases s.len(),
{
    if s.len() > 0 && is_space(s.last()) {
        lemma_trim_end_is_prefix(s.drop_last());
        assert(s.drop_last().take(trim_end(s).len() as int) =~= s.take(trim_end(s).len() as int));
    } else {
        assert(s.take(s.len() as int) =~= s);
    }
}

/// Trimming the end of `s` leaves nothing exactly when `s` is all whitespace.
pub proof fn lemma_trim_end_empty(s: Seq<char>)
    ensures
        trim_end(s).len() == 0 <==> is_blank(s),
        is_blank(trim_end(s)) <==> is_blank(s),
    decreases s.len(),
{
    if s.len() > 0 && is_space(s.last()) {
        lemma_trim_end_empty(s.drop_last());
        if is_blank(s.drop_last()) {
            assert forall|i: int| 0 <= i < s.len() implies #[trigger] is_space(s[i]) by {
                if i < s.len() - 1 {
                    assert(s.drop_last()[i] == s[i]);
                }
            }
        }
        if is_blank(s) {
            assert forall|i: int| 0 <= i < s.drop_last().len() implies #[trigger] is_space(
                s.drop_last()[i],
            ) by {
                assert(s.drop_last()[i] == s[i]);
            }
        }
    } else if s.len() > 0 {
        assert(!is_space(s[s.len() - 1]));
    }
}

/// Whether `c` is whitespace, as `char::is_whitespace` says.
pub fn is_space_char(c: char) -> (answer: bool)
    ensures
        answer == is_space(c),
{
    let u = c as u32;
    (0x09 <= u && u <= 0x0d) || u == 0x20 || u == 0x85 || u == 0xa0 || u == 0x1680 || (0x2000
        <= u && u <= 0x200a) || u == 0x2028 || u == 0x2029 || u == 0x202f || u == 0x205f || u
        == 0x3000
}

/// Whether `s` holds nothing but whitespace.
pub fn blank(s: &str) -> (answer: bool)
    ensures
        answer == is_blank(s@),
{
    for c in it: s.chars()
        invariant
            it.seq() == s@,
            forall|i: int| 0 <= i < it.index() ==> #[trigger] is_space(s@[i]),
    {
        if !is_space_char(c) {
            return false;
        }
    }
    true
}

/// Every character is at least one byte, so a string in memory has no more
/// characters than a `usize` counts.
pub proof fn lemma_encoding_is_no_shorter(chars: Seq<char>)
    ensures
        vstd::utf8::encode_utf8(chars).len() >= chars.len(),
    decreases chars.len(),
{
    if chars.len() > 0 {
        lemma_encoding_is_no_shorter(chars.drop_first());
    }
}

/// Establishes that `s` has at most `usize::MAX` characters.
pub fn char_count_fits(s: &str)
    ensures
        s@.len() <= usize::MAX,
{
    let bytes = s.as_bytes();
    proof {
        broadcast use vstd::slice::axiom_spec_len;

        lemma_encoding_is_no_shorter(s@);
        assert(bytes@.len() == vstd::slice::spec_slice_len(bytes));
    }
}

/// `s` without its trailing whitespace, as `str::trim_end` gives it.
pub fn trimmed_end(s: &str) -> (rest: &str)
    ensures
        rest@ == trim_end(s@),
{
    char_count_fits(s);
    // The characters up to and including the last one that is not whitespace,
    // among those seen so far.
    let mut end: usize = 0;
    let mut seen: usize = 0;
    for c in it: s.chars()
        invariant
            it.seq() == s@,
            s@.len() <= usize::MAX,
            seen == it.index(),
            end == trim_end(s@.take(it.index() as int)).len(),
    {
        proof {
            let i = it.index() as int;
            assert(s@.take(i + 1).drop_last() =~= s@.take(i));
            assert(s@.take(i + 1).last() == s@[i]);
        }
        seen = seen + 1;
        if !is_space_char(c) {
            end = seen;
        }
    }
    proof {
        assert(s@.take(s@.len() as int) =~= s@);
        lemma_trim_end_is_prefix(s@);
    }
    s.substring_char(0, end)
}

/// `s` without its leading whitespace, as `str::trim_start` gives it.
pub fn trimmed_start(s: &str) -> (rest: &str)
    ensures
        rest@ == trim_start(s@),
{
    char_count_fits(s);
    let mut start: usize = 0;
    let mut found = false;
    for c in it: s.chars()
        invariant
            it.seq() == s@,
            s@.len() <= usize::MAX,
            !found ==> start == it.index(),
            !found ==> forall|i: int| 0 <= i < it.index() ==> #[trigger] is_space(s@[i]),
            found ==> start < s@.len() && !is_space(s@[start as int]) && forall|i: int|
                0 <= i < start ==> #[trigger] is_space(s@[i]),
    {
        if !found {
            if is_space_char(c) {
                start = start + 1;
            } else {
                found = true;
            }
        }
    }
    proof {
        lemma_trim_start_skips(s@, start as int);
    }
    s.substring_char(start, s.unicode_len())
}

/// Trimming the start of `s` drops exactly the whitespace in front of its first
/// other character.
pub proof fn lemma_trim_start_skips(s: Seq<char>, start: int)
    requires
        0 <= start <= s.len(),
        forall|i: int| 0 <= i < start ==> #[trigger] is_space(s[i]),
        start < s.len() ==> !is_space(s[start]),
    ensures
        trim_start(s) =~= s.subrange(start, s.len() as int),
    decreases start,
{
    if start == 0 {
        assert(s.subrange(0, s.len() as int) =~= s);
        if s.len() > 0 {
            assert(!is_space(s[0]));
        }
    } else {
        assert(is_space(s[0]));
        let rest = s.drop_first();
        assert forall|i: int| 0 <= i < start - 1 implies #[trigger] is_space(rest[i]) by {
            assert(rest[i] == s[i + 1]);
        }
        if start - 1 < rest.len() {
            assert(rest[start - 1] == s[start]);
        }
        lemma_trim_start_skips(rest, start - 1);
        assert(rest.subrange(start - 1, rest.len() as int) =~= s.subrange(start, s.len() as int));
    }
}

/// `s` with whitespace removed from both ends, as `str::trim` gives it.
pub fn trimmed(s: &str) -> (rest: &str)
    ensures
        rest@ == trim(s@),
{
    trimmed_start(trimmed_end(s))
}

/// What trimming the end drops is whitespace, every character of it.
pub proof fn lemma_trim_end_drops_space(s: Seq<char>)
    ensures
        forall|j: int| trim_end(s).len() <= j < s.len() ==> is_space(#[trigger] s[j]),
    decreases s.len(),
{
    if s.len() > 0 && is_space(s.last()) {
        lemma_trim_end_drops_space(s.drop_last());
        assert forall|j: int| trim_end(s).len() <= j < s.len() implies is_space(#[trigger] s[j]) by {
            if j < s.len() - 1 {
                assert(s.drop_last()[j] == s[j]);
            }
        }
    }
}

/// The number a string of decimal digits, most significant first, stands for.
pub open spec fn read_digits(s: Seq<char>) -> int
    decreases s.len(),
{
    if s.len() == 0 {
        0
    } else {
        read_digits(s.drop_last()) * 10 + (s.last() as int - '0' as int)
    }
}

/// Each digit is the character that many places after `0`.
proof fn lemma_digit(d: nat)
    requires
        d < 10,
    ensures
        digit(d) as int == '0' as int + d,
{
    let ds = seq!['0', '1', '2', '3', '4', '5', '6', '7', '8', '9'];
    assert(ds[0] == '0' && ds[1] == '1' && ds[2] == '2' && ds[3] == '3' && ds[4] == '4');
    assert(ds[5] == '5' && ds[6] == '6' && ds[7] == '7' && ds[8] == '8' && ds[9] == '9');
}

/// A number is written as decimal digits with no leading zero, and reading
/// them back gives the number: so there is one way to write it, and
/// [`digits`] is that way.
pub proof fn digits_read_back(n: nat)
    ensures
        digits(n).len() > 0,
        forall|i: int|
            0 <= i < digits(n).len() ==> '0' as int <= #[trigger] digits(n)[i] as int <= '9' as int,
        read_digits(digits(n)) == n,
        n > 0 ==> digits(n)[0] != '0',
    decreases n,
{
    if n < 10 {
        lemma_digit(n);
        assert(seq![digit(n)].drop_last() =~= Seq::<char>::empty());
        assert(read_digits(Seq::<char>::empty()) == 0);
    } else {
        let before = digits(n / 10);
        digits_read_back(n / 10);
        lemma_digit(n % 10);
        let all = before.push(digit(n % 10));
        assert(all.drop_last() =~= before);
        assert(all[0] == before[0]);
        assert forall|i: int| 0 <= i < all.len() implies '0' as int <= #[trigger] all[i] as int
            <= '9' as int by {
            if i < before.len() {
                assert(all[i] == before[i]);
            }
        }
        assert(all.last() == digit(n % 10));
        assert(read_digits(all) == read_digits(before) * 10 + (digit(n % 10) as int - '0' as int));
        assert(n == (n / 10) * 10 + n % 10) by (nonlinear_arith);
    }
}

} // verus!
