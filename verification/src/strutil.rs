//! Small verified string utilities shared by the rest of the library.

use vstd::prelude::*;
use vstd::string::StrSliceExecFns;

verus! {

/// Character-wise equality of two string slices.
pub fn str_eq(a: &str, b: &str) -> (r: bool)
    ensures
        r == (a@ == b@),
{
    let alen = a.unicode_len();
    let blen = b.unicode_len();
    if alen != blen {
        proof {
            assert(a@ != b@);
        }
        return false;
    }
    let mut i: usize = 0;
    while i < alen
        invariant
            alen == a@.len(),
            alen == b@.len(),
            0 <= i <= alen,
            forall|k: int| 0 <= k < i ==> a@[k] == b@[k],
        decreases alen - i,
    {
        if a.get_char(i) != b.get_char(i) {
            return false;
        }
        i += 1;
    }
    proof {
        assert(a@ =~= b@);
    }
    true
}

/// The decimal digit character for a value below ten.
pub open spec fn digit_char(d: int) -> char {
    if d == 0 {
        '0'
    } else if d == 1 {
        '1'
    } else if d == 2 {
        '2'
    } else if d == 3 {
        '3'
    } else if d == 4 {
        '4'
    } else if d == 5 {
        '5'
    } else if d == 6 {
        '6'
    } else if d == 7 {
        '7'
    } else if d == 8 {
        '8'
    } else {
        '9'
    }
}

/// The usual decimal rendering of a non-negative integer, without leading
/// zeros (a single zero for the value zero).
pub open spec fn dec_str(n: int) -> Seq<char>
    recommends
        n >= 0,
    decreases n,
{
    if n < 10 {
        seq![digit_char(n)]
    } else {
        dec_str(n / 10).push(digit_char(n % 10))
    }
}

fn push_digit(out: &mut String, d: u64)
    requires
        d < 10,
    ensures
        final(out)@ == old(out)@.push(digit_char(d as int)),
{
    if d == 0 {
        out.append("0");
        proof {
            reveal_strlit("0");
            assert(out@ =~= old(out)@.push('0'));
        }
    } else if d == 1 {
        out.append("1");
        proof {
            reveal_strlit("1");
            assert(out@ =~= old(out)@.push('1'));
        }
    } else if d == 2 {
        out.append("2");
        proof {
            reveal_strlit("2");
            assert(out@ =~= old(out)@.push('2'));
        }
    } else if d == 3 {
        out.append("3");
        proof {
            reveal_strlit("3");
            assert(out@ =~= old(out)@.push('3'));
        }
    } else if d == 4 {
        out.append("4");
        proof {
            reveal_strlit("4");
            assert(out@ =~= old(out)@.push('4'));
        }
    } else if d == 5 {
        out.append("5");
        proof {
            reveal_strlit("5");
            assert(out@ =~= old(out)@.push('5'));
        }
    } else if d == 6 {
        out.append("6");
        proof {
            reveal_strlit("6");
            assert(out@ =~= old(out)@.push('6'));
        }
    } else if d == 7 {
        out.append("7");
        proof {
            reveal_strlit("7");
            assert(out@ =~= old(out)@.push('7'));
        }
    } else if d == 8 {
        out.append("8");
        proof {
            reveal_strlit("8");
            assert(out@ =~= old(out)@.push('8'));
        }
    } else {
        out.append("9");
        proof {
            reveal_strlit("9");
            assert(out@ =~= old(out)@.push('9'));
        }
    }
}

/// Appends the decimal rendering of `n` to `out`.
pub fn push_dec(out: &mut String, n: u64)
    ensures
        final(out)@ == old(out)@ + dec_str(n as int),
    decreases n,
{
    if n >= 10 {
        push_dec(out, n / 10);
        push_digit(out, n % 10);
        proof {
            assert(out@ =~= old(out)@ + dec_str(n as int));
        }
    } else {
        push_digit(out, n);
        proof {
            assert(out@ =~= old(out)@ + dec_str(n as int));
        }
    }
}

/// The decimal rendering of `n` as a fresh string.
pub fn dec_string(n: u64) -> (r: String)
    ensures
        r@ == dec_str(n as int),
{
    let mut out = String::new();
    push_dec(&mut out, n);
    proof {
        assert(out@ =~= dec_str(n as int));
    }
    out
}

/// The Unicode white-space characters, the set that `str::trim` and
/// white-space splitting go by.
pub open spec fn is_space_char(c: char) -> bool {
    let u = c as u32;
    ||| (9 <= u && u <= 13)
    ||| u == 32
    ||| u == 0x85
    ||| u == 0xA0
    ||| u == 0x1680
    ||| (0x2000 <= u && u <= 0x200A)
    ||| u == 0x2028
    ||| u == 0x2029
    ||| u == 0x202F
    ||| u == 0x205F
    ||| u == 0x3000
}

/// Whether `c` is a white-space character.
pub fn is_space(c: char) -> (r: bool)
    ensures
        r == is_space_char(c),
{
    let u = c as u32;
    (9 <= u && u <= 13) || u == 32 || u == 0x85 || u == 0xA0 || u == 0x1680 || (0x2000 <= u && u
        <= 0x200A) || u == 0x2028 || u == 0x2029 || u == 0x202F || u == 0x205F || u == 0x3000
}

/// `s` with its leading white space removed.
pub open spec fn trim_start_spec(s: Seq<char>) -> Seq<char>
    decreases s.len(),
{
    if s.len() > 0 && is_space_char(s[0]) {
        trim_start_spec(s.drop_first())
    } else {
        s
    }
}

/// `s` with its trailing white space removed.
pub open spec fn trim_end_spec(s: Seq<char>) -> Seq<char>
    decreases s.len(),
{
    if s.len() > 0 && is_space_char(s.last()) {
        trim_end_spec(s.drop_last())
    } else {
        s
    }
}

/// `s` with leading and trailing white space removed.
pub open spec fn trim_spec(s: Seq<char>) -> Seq<char> {
    trim_end_spec(trim_start_spec(s))
}

proof fn lemma_trim_start_skip(s: Seq<char>, i: int)
    requires
        0 <= i <= s.len(),
        forall|k: int| 0 <= k < i ==> is_space_char(s[k]),
        i == s.len() || !is_space_char(s[i]),
    ensures
        trim_start_spec(s) == s.subrange(i, s.len() as int),
    decreases i,
{
    if i == 0 {
        assert(s.subrange(0, s.len() as int) =~= s);
    } else {
        assert(is_space_char(s[0]));
        lemma_trim_start_skip(s.drop_first(), i - 1);
        assert(s.drop_first().subrange(i - 1, s.drop_first().len() as int) =~= s.subrange(
            i,
            s.len() as int,
        ));
    }
}

proof fn lemma_trim_end_skip(s: Seq<char>, j: int)
    requires
        0 <= j <= s.len(),
        forall|k: int| j <= k < s.len() ==> is_space_char(s[k]),
        j == 0 || !is_space_char(s[j - 1]),
    ensures
        trim_end_spec(s) == s.subrange(0, j),
    decreases s.len() - j,
{
    if j == s.len() {
        if s.len() > 0 && is_space_char(s.last()) {
            assert(!is_space_char(s[j - 1]));
            assert(false);
        }
        assert(s.subrange(0, s.len() as int) =~= s);
    } else {
        assert(is_space_char(s.last()));
        lemma_trim_end_skip(s.drop_last(), j);
        assert(s.drop_last().subrange(0, j) =~= s.subrange(0, j));
    }
}

/// `s` with leading and trailing white space removed, as `str::trim`
/// produces it.
pub fn trim(s: &str) -> (r: &str)
    ensures
        r@ == trim_spec(s@),
{
    let n = s.unicode_len();
    let mut i: usize = 0;
    while i < n && is_space(s.get_char(i))
        invariant
            n == s@.len(),
            0 <= i <= n,
            forall|k: int| 0 <= k < i ==> is_space_char(s@[k]),
        decreases n - i,
    {
        i += 1;
    }
    let mut j: usize = n;
    while j > i && is_space(s.get_char(j - 1))
        invariant
            n == s@.len(),
            i <= j <= n,
            i == n || !is_space_char(s@[i as int]),
            forall|k: int| j <= k < n ==> is_space_char(s@[k]),
        decreases j,
    {
        j -= 1;
    }
    proof {
        lemma_trim_start_skip(s@, i as int);
        let t = s@.subrange(i as int, s@.len() as int);
        lemma_trim_end_skip(t, j - i);
        assert(t.subrange(0, j - i) =~= s@.subrange(i as int, j as int));
    }
    s.substring_char(i, j)
}

/// The first position of `c` in `s`, if any.
pub fn find_char(s: &str, c: char) -> (r: Option<usize>)
    ensures
        match r {
            Some(i) => {
                &&& i < s@.len()
                &&& s@[i as int] == c
                &&& forall|k: int| 0 <= k < i ==> s@[k] != c
            },
            None => forall|k: int| 0 <= k < s@.len() ==> s@[k] != c,
        },
{
    let n = s.unicode_len();
    let mut i: usize = 0;
    while i < n
        invariant
            n == s@.len(),
            0 <= i <= n,
            forall|k: int| 0 <= k < i ==> s@[k] != c,
        decreases n - i,
    {
        if s.get_char(i) == c {
            return Some(i);
        }
        i += 1;
    }
    None
}

/// Whether `p` is a prefix of `s`.
pub fn starts_with(s: &str, p: &str) -> (r: bool)
    ensures
        r == p@.is_prefix_of(s@),
{
    let n = s.unicode_len();
    let m = p.unicode_len();
    if m > n {
        return false;
    }
    let mut i: usize = 0;
    while i < m
        invariant
            n == s@.len(),
            m == p@.len(),
            m <= n,
            0 <= i <= m,
            forall|k: int| 0 <= k < i ==> s@[k] == p@[k],
        decreases m - i,
    {
        if s.get_char(i) != p.get_char(i) {
            proof {
                assert(!p@.is_prefix_of(s@));
            }
            return false;
        }
        i += 1;
    }
    proof {
        assert(p@ =~= s@.subrange(0, m as int));
    }
    true
}

/// Whether `p` is a suffix of `s`.
pub fn ends_with(s: &str, p: &str) -> (r: bool)
    ensures
        r == p@.is_suffix_of(s@),
{
    let n = s.unicode_len();
    let m = p.unicode_len();
    if m > n {
        return false;
    }
    let mut i: usize = 0;
    while i < m
        invariant
            n == s@.len(),
            m == p@.len(),
            m <= n,
            0 <= i <= m,
            forall|k: int| 0 <= k < i ==> s@[n - m + k] == p@[k],
        decreases m - i,
    {
        if s.get_char(n - m + i) != p.get_char(i) {
            proof {
                assert(!p@.is_suffix_of(s@));
            }
            return false;
        }
        i += 1;
    }
    proof {
        assert(p@ =~= s@.subrange(n - m, n as int));
    }
    true
}

/// The first white-space position in `s` at or after `i`, or the length
/// of `s` when none follows.
pub open spec fn space_end(s: Seq<char>, i: int) -> int
    decreases s.len() - i,
    when 0 <= i <= s.len()
{
    if i == s.len() || is_space_char(s[i]) {
        i
    } else {
        space_end(s, i + 1)
    }
}

proof fn lemma_space_end_bounds(s: Seq<char>, i: int)
    requires
        0 <= i <= s.len(),
    ensures
        i <= space_end(s, i) <= s.len(),
        forall|k: int| i <= k < space_end(s, i) ==> !is_space_char(s[k]),
        space_end(s, i) < s.len() ==> is_space_char(s[space_end(s, i)]),
    decreases s.len() - i,
{
    if !(i == s.len() || is_space_char(s[i])) {
        lemma_space_end_bounds(s, i + 1);
    }
}

/// The white-space-separated tokens of `s` from position `i` on.
pub open spec fn tokens_from(s: Seq<char>, i: int) -> Seq<Seq<char>>
    decreases s.len() - i,
    when 0 <= i <= s.len()
    via tokens_from_decreases
{
    if i >= s.len() {
        Seq::empty()
    } else if is_space_char(s[i]) {
        tokens_from(s, i + 1)
    } else {
        seq![s.subrange(i, space_end(s, i))] + tokens_from(s, space_end(s, i))
    }
}

#[via_fn]
proof fn tokens_from_decreases(s: Seq<char>, i: int) {
    if i < s.len() && !is_space_char(s[i]) {
        lemma_space_end_bounds(s, i);
    }
}

/// The white-space-separated tokens of `s`: the maximal runs of
/// non-white-space characters, in order.
pub open spec fn tokens_spec(s: Seq<char>) -> Seq<Seq<char>> {
    tokens_from(s, 0)
}

/// Splits `s` into its white-space-separated tokens.
pub fn split_whitespace(s: &str) -> (r: Vec<String>)
    ensures
        r.deep_view() == tokens_spec(s@),
{
    let n = s.unicode_len();
    let mut out: Vec<String> = Vec::new();
    let mut i: usize = 0;
    while i < n
        invariant
            n == s@.len(),
            0 <= i <= n,
            out.deep_view() + tokens_from(s@, i as int) == tokens_spec(s@),
        decreases n - i,
    {
        if is_space(s.get_char(i)) {
            i += 1;
        } else {
            let start = i;
            let mut j = i + 1;
            proof {
                lemma_space_end_bounds(s@, start as int);
            }
            while j < n && !is_space(s.get_char(j))
                invariant
                    n == s@.len(),
                    start < j <= n,
                    forall|k: int| start <= k < j ==> !is_space_char(s@[k]),
                    space_end(s@, start as int) >= j,
                decreases n - j,
            {
                j += 1;
                proof {
                    lemma_space_end_bounds(s@, start as int);
                    if space_end(s@, start as int) < j {
                        assert(is_space_char(s@[space_end(s@, start as int)]));
                        assert(false);
                    }
                }
            }
            proof {
                lemma_space_end_bounds(s@, start as int);
                assert(space_end(s@, start as int) == j);
            }
            let ghost pre = out.deep_view();
            out.push(String::from_str(s.substring_char(start, j)));
            proof {
                assert(out.deep_view() =~= pre.push(s@.subrange(start as int, j as int)));
            }
            i = j;
        }
        proof {
            assert(out.deep_view() + tokens_from(s@, i as int) =~= tokens_spec(s@));
        }
    }
    proof {
        assert(out.deep_view() =~= tokens_spec(s@));
    }
    out
}

/// The first position of `c` in `s`, if any.
pub open spec fn find_index(s: Seq<char>, c: char) -> Option<int>
    decreases s.len(),
{
    if s.len() == 0 {
        None
    } else if s[0] == c {
        Some(0int)
    } else {
        match find_index(s.drop_first(), c) {
            Some(i) => Some(i + 1),
            None => None,
        }
    }
}

/// `find_index` returns the first position of `c` when there is one.
pub proof fn lemma_find_index_some(s: Seq<char>, c: char, i: int)
    requires
        0 <= i < s.len(),
        s[i] == c,
        forall|k: int| 0 <= k < i ==> s[k] != c,
    ensures
        find_index(s, c) == Some(i),
    decreases i,
{
    if i > 0 {
        lemma_find_index_some(s.drop_first(), c, i - 1);
    }
}

/// `find_index` returns nothing when `c` does not occur.
pub proof fn lemma_find_index_none(s: Seq<char>, c: char)
    requires
        forall|k: int| 0 <= k < s.len() ==> s[k] != c,
    ensures
        find_index(s, c) is None,
    decreases s.len(),
{
    if s.len() > 0 {
        lemma_find_index_none(s.drop_first(), c);
    }
}

proof fn lemma_find_index_bounds(s: Seq<char>, c: char)
    ensures
        find_index(s, c) matches Some(i) ==> 0 <= i < s.len() && s[i] == c,
    decreases s.len(),
{
    if s.len() > 0 && s[0] != c {
        lemma_find_index_bounds(s.drop_first(), c);
    }
}

/// A line's text with a single carriage return dropped from its end, as
/// line splitting does for a `\r\n` terminator.
pub open spec fn strip_cr(s: Seq<char>) -> Seq<char> {
    if s.len() > 0 && s.last() == '\r' {
        s.drop_last()
    } else {
        s
    }
}

/// The lines of `s`, split at `\n` or `\r\n` terminators, the final
/// terminator optional.
pub open spec fn lines_spec(s: Seq<char>) -> Seq<Seq<char>>
    decreases s.len(),
    via lines_spec_decreases
{
    if s.len() == 0 {
        Seq::empty()
    } else {
        match find_index(s, '\n') {
            None => seq![s],
            Some(i) => seq![strip_cr(s.subrange(0, i))] + lines_spec(
                s.subrange(i + 1, s.len() as int),
            ),
        }
    }
}

#[via_fn]
proof fn lines_spec_decreases(s: Seq<char>) {
    lemma_find_index_bounds(s, '\n');
}

/// Splits `s` into its lines, as `lines_spec` gives them.
pub fn split_lines(s: &str) -> (r: Vec<String>)
    ensures
        r.deep_view() == lines_spec(s@),
{
    let n = s.unicode_len();
    let mut out: Vec<String> = Vec::new();
    let mut pos: usize = 0;
    proof {
        assert(s@.subrange(0, n as int) =~= s@);
    }
    while pos < n
        invariant
            n == s@.len(),
            0 <= pos <= n,
            out.deep_view() + lines_spec(s@.subrange(pos as int, n as int)) == lines_spec(s@),
        decreases n - pos,
    {
        let mut j = pos;
        while j < n && s.get_char(j) != '\n'
            invariant
                n == s@.len(),
                pos <= j <= n,
                forall|k: int| pos <= k < j ==> s@[k] != '\n',
            decreases n - j,
        {
            j += 1;
        }
        let ghost rem = s@.subrange(pos as int, n as int);
        if j < n {
            let end = if j > pos && s.get_char(j - 1) == '\r' {
                j - 1
            } else {
                j
            };
            let ghost pre = out.deep_view();
            out.push(String::from_str(s.substring_char(pos, end)));
            proof {
                lemma_find_index_some(rem, '\n', j - pos);
                assert(rem.subrange(0, j - pos) =~= s@.subrange(pos as int, j as int));
                assert(strip_cr(rem.subrange(0, j - pos)) =~= s@.subrange(pos as int, end as int));
                assert(rem.subrange(j - pos + 1, rem.len() as int) =~= s@.subrange(
                    j + 1,
                    n as int,
                ));
                assert(out.deep_view() =~= pre.push(s@.subrange(pos as int, end as int)));
                assert(out.deep_view() + lines_spec(s@.subrange(j + 1, n as int)) =~= lines_spec(
                    s@,
                ));
            }
            pos = j + 1;
        } else {
            let ghost pre = out.deep_view();
            out.push(String::from_str(s.substring_char(pos, n)));
            proof {
                lemma_find_index_none(rem, '\n');
                assert(out.deep_view() =~= pre.push(rem));
                assert(s@.subrange(n as int, n as int) =~= Seq::<char>::empty());
                assert(out.deep_view() + lines_spec(s@.subrange(n as int, n as int)) =~= lines_spec(
                    s@,
                ));
            }
            pos = n;
        }
    }
    proof {
        assert(s@.subrange(n as int, n as int) =~= Seq::<char>::empty());
        assert(out.deep_view() =~= lines_spec(s@));
    }
    out
}

/// `s` with every trailing occurrence of `p` removed, as
/// `str::trim_end_matches` leaves it.
pub open spec fn strip_suffix_all(s: Seq<char>, p: Seq<char>) -> Seq<char>
    decreases s.len(),
{
    if p.len() > 0 && p.is_suffix_of(s) {
        strip_suffix_all(s.subrange(0, s.len() - p.len()), p)
    } else {
        s
    }
}

/// Removes every trailing occurrence of `p` from `s`.
pub fn trim_end_matches_all<'a>(s: &'a str, p: &str) -> (r: &'a str)
    ensures
        r@ == strip_suffix_all(s@, p@),
{
    let plen = p.unicode_len();
    let mut cur: &str = s;
    let mut curlen = s.unicode_len();
    while plen > 0 && ends_with(cur, p)
        invariant
            plen == p@.len(),
            curlen == cur@.len(),
            strip_suffix_all(cur@, p@) == strip_suffix_all(s@, p@),
        decreases curlen,
    {
        cur = cur.substring_char(0, curlen - plen);
        curlen = curlen - plen;
    }
    cur
}

/// Relies on `String::push`: it appends exactly the one given character
/// to the end of the string.
#[verifier::external_body]
pub fn push_char(s: &mut String, c: char)
    ensures
        final(s)@ == old(s)@.push(c),
{
    s.push(c);
}

/// ASCII uppercasing of a single character; other characters are
/// unchanged.
pub open spec fn upper_char(c: char) -> char {
    if 97 <= c as u32 && c as u32 <= 122 {
        ((c as u32 - 32) as u8) as char
    } else {
        c
    }
}

/// How a target triple's characters map into a cargo environment-variable
/// name: uppercased, with dashes as underscores.
pub open spec fn env_key_char(c: char) -> char {
    if c == '-' {
        '_'
    } else {
        upper_char(c)
    }
}

/// Uppercases `s` and replaces every dash with an underscore, giving the
/// form a target triple takes inside a cargo environment-variable name.
pub fn to_env_key_part(s: &str) -> (r: String)
    ensures
        r@ == s@.map_values(|c: char| env_key_char(c)),
{
    let n = s.unicode_len();
    let mut out = String::new();
    let mut i: usize = 0;
    while i < n
        invariant
            n == s@.len(),
            0 <= i <= n,
            out@ == s@.subrange(0, i as int).map_values(|c: char| env_key_char(c)),
        decreases n - i,
    {
        let c = s.get_char(i);
        let u = c as u32;
        let t: char = if c == '-' {
            '_'
        } else if 97 <= u && u <= 122 {
            ((u - 32) as u8) as char
        } else {
            c
        };
        push_char(&mut out, t);
        proof {
            assert(s@.subrange(0, i + 1).map_values(|c2: char| env_key_char(c2)) =~= s@.subrange(
                0,
                i as int,
            ).map_values(|c2: char| env_key_char(c2)).push(env_key_char(s@[i as int])));
        }
        i += 1;
    }
    proof {
        assert(s@.subrange(0, n as int) =~= s@);
    }
    out
}

/// A crate name's characters as they appear in its library's file name:
/// dashes become underscores.
pub open spec fn underscore_char(c: char) -> char {
    if c == '-' {
        '_'
    } else {
        c
    }
}

/// Replaces every dash in `s` with an underscore, as cargo names the
/// library built from a crate.
pub fn dashes_to_underscores(s: &str) -> (r: String)
    ensures
        r@ == s@.map_values(|c: char| underscore_char(c)),
{
    let n = s.unicode_len();
    let mut out = String::new();
    let mut i: usize = 0;
    while i < n
        invariant
            n == s@.len(),
            0 <= i <= n,
            out@ == s@.subrange(0, i as int).map_values(|c: char| underscore_char(c)),
        decreases n - i,
    {
        let c = s.get_char(i);
        let t: char = if c == '-' {
            '_'
        } else {
            c
        };
        push_char(&mut out, t);
        proof {
            assert(s@.subrange(0, i + 1).map_values(|c2: char| underscore_char(c2)) =~= s@.subrange(
                0,
                i as int,
            ).map_values(|c2: char| underscore_char(c2)).push(underscore_char(s@[i as int])));
        }
        i += 1;
    }
    proof {
        assert(s@.subrange(0, n as int) =~= s@);
    }
    out
}

/// The paths' concatenation with the platform's separator between them.
pub open spec fn path_join_spec(a: Seq<char>, b: Seq<char>) -> Seq<char> {
    a + "/"@ + b
}

/// Joins a directory path and a relative path with a separator.
pub fn path_join(a: &str, b: &str) -> (r: String)
    ensures
        r@ == path_join_spec(a@, b@),
{
    let mut out = String::from_str(a);
    out.append("/");
    out.append(b);
    out
}

} // verus!
