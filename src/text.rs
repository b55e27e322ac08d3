//! Character-level helpers: space-delimited tokens, ASCII case-insensitive
//! comparison and decimal rendering of integers.

use vstd::prelude::*;
use vstd::string::*;

verus! {

/// The code point of `c`, with the ASCII capitals `A`..`Z` taken to lower case.
pub open spec fn fold_ascii(c: char) -> int {
    if 65 <= (c as u32) && (c as u32) <= 90 {
        (c as u32) + 32
    } else {
        c as u32 as int
    }
}

/// `a` and `b` are equal once ASCII capitals are lowered in both.
pub open spec fn eq_ignore_ascii_case(a: Seq<char>, b: Seq<char>) -> bool {
    &&& a.len() == b.len()
    &&& forall|i: int| 0 <= i < a.len() ==> #[trigger] fold_ascii(a[i]) == fold_ascii(b[i])
}

/// The index of the first space at or after `from`, or the length of `s`
/// when no space follows: where the token that starts at `from` ends.
pub open spec fn token_end(s: Seq<char>, from: int) -> int
    decreases s.len() - from,
{
    if from >= s.len() {
        s.len() as int
    } else if s[from] == ' ' {
        from
    } else {
        token_end(s, from + 1)
    }
}

/// The decimal digits of `n`, most significant first, with no leading zero.
pub open spec fn decimal(n: nat) -> Seq<char>
    decreases n,
{
    if n < 10 {
        seq![(n + 48) as char]
    } else {
        decimal(n / 10) + seq![((n % 10) + 48) as char]
    }
}

/// Bounds of `token_end`: it never goes back and never passes the end.
pub proof fn lemma_token_end_bounds(s: Seq<char>, from: int)
    requires
        0 <= from <= s.len(),
    ensures
        from <= token_end(s, from) <= s.len(),
        token_end(s, from) < s.len() ==> s[token_end(s, from)] == ' ',
        forall|j: int| from <= j < token_end(s, from) ==> s[j] != ' ',
    decreases s.len() - from,
{
    if from < s.len() && s[from] != ' ' {
        lemma_token_end_bounds(s, from + 1);
    }
}

/// Where the token of `s` that starts at index `from` ends.
pub fn find_token_end(s: &str, from: usize) -> (r: usize)
    requires
        from <= s@.len(),
    ensures
        r == token_end(s@, from as int),
{
    let n: usize = s.unicode_len();
    let mut i: usize = from;
    while i < n && s.get_char(i) != ' '
        invariant
            n == s@.len(),
            from <= i <= n,
            token_end(s@, i as int) == token_end(s@, from as int),
        decreases n - i,
    {
        i = i + 1;
    }
    i
}

fn fold_char(c: char) -> (r: u32)
    ensures
        r as int == fold_ascii(c),
{
    let u: u32 = c as u32;
    if 65 <= u && u <= 90 {
        u + 32
    } else {
        u
    }
}

/// Whether the first `end` characters of `s` equal `name` up to ASCII case.
pub fn first_token_matches(s: &str, end: usize, name: &str) -> (r: bool)
    requires
        end <= s@.len(),
    ensures
        r == eq_ignore_ascii_case(s@.take(end as int), name@),
{
    let n: usize = name.unicode_len();
    if n != end {
        return false;
    }
    let mut i: usize = 0;
    while i < n
        invariant
            n == name@.len(),
            n == end,
            end <= s@.len(),
            0 <= i <= n,
            forall|j: int| 0 <= j < i ==> #[trigger] fold_ascii(s@[j]) == fold_ascii(name@[j]),
        decreases n - i,
    {
        if fold_char(s.get_char(i)) != fold_char(name.get_char(i)) {
            assert(s@.take(end as int)[i as int] == s@[i as int]);
            return false;
        }
        i = i + 1;
    }
    assert forall|j: int| 0 <= j < n implies #[trigger] fold_ascii(s@.take(end as int)[j])
        == fold_ascii(name@[j]) by {
        assert(s@.take(end as int)[j] == s@[j]);
    }
    true
}

/// The one-character text of the decimal digit `d`.
fn digit_text(d: u8) -> (r: &'static str)
    requires
        d < 10,
    ensures
        r@ == seq![((d as nat) + 48) as char],
{
    let digits: &'static str = "0123456789";
    proof {
        reveal_strlit("0123456789");
        assert(digits@ =~= seq!['0', '1', '2', '3', '4', '5', '6', '7', '8', '9']);
    }
    let r = digits.substring_char(d as usize, d as usize + 1);
    assert(r@ =~= seq![((d as nat) + 48) as char]) by {
        assert(r@[0] == digits@[d as int]);
    }
    r
}

/// Appends the decimal digits of `n` to `out`.
pub fn push_decimal(out: &mut String, n: u64)
    ensures
        final(out)@ == old(out)@ + decimal(n as nat),
    decreases n,
{
    if n >= 10 {
        push_decimal(out, n / 10);
    }
    let d: u8 = (n % 10) as u8;
    out.append(digit_text(d));
}

} // verus!
