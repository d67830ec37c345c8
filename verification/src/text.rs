//! Verified string utilities: equality, substring search, prefix/suffix
//! tests, lexicographic comparison and decimal rendering.
//!
//! Paths and installation names are handled as plain strings throughout the
//! library, so these helpers carry most of the classification logic.

use vstd::prelude::*;
use vstd::string::StrSliceExecFns;

verus! {

/// The characters of `needle` occur in `haystack` starting at index `i`.
pub open spec fn contains_at(haystack: Seq<char>, needle: Seq<char>, i: int) -> bool {
    0 <= i && i + needle.len() <= haystack.len() && haystack.subrange(i, i + needle.len() as int)
        == needle
}

/// `needle` occurs somewhere in `haystack` (substring containment).
pub open spec fn contains_seq(haystack: Seq<char>, needle: Seq<char>) -> bool {
    exists|i: int| contains_at(haystack, needle, i)
}

/// `s` begins with `prefix`.
pub open spec fn starts_with_seq(s: Seq<char>, prefix: Seq<char>) -> bool {
    prefix.len() <= s.len() && s.subrange(0, prefix.len() as int) == prefix
}

/// `s` ends with `suffix`.
pub open spec fn ends_with_seq(s: Seq<char>, suffix: Seq<char>) -> bool {
    suffix.len() <= s.len() && s.subrange(s.len() - suffix.len(), s.len() as int) == suffix
}

/// Character-wise string equality.
pub fn str_eq(a: &str, b: &str) -> (r: bool)
    ensures
        r == (a@ == b@),
{
    let alen = a.unicode_len();
    let blen = b.unicode_len();
    if alen != blen {
        return false;
    }
    let mut i: usize = 0;
    while i < alen
        invariant
            alen == a@.len(),
            alen == b@.len(),
            i <= alen,
            forall|j: int| 0 <= j < i ==> a@[j] == b@[j],
        decreases alen - i,
    {
        if a.get_char(i) != b.get_char(i) {
            return false;
        }
        i = i + 1;
    }
    proof {
        assert(a@ =~= b@);
    }
    true
}

/// `needle` matches `haystack` at position `i`.
fn match_at(haystack: &str, needle: &str, i: usize) -> (r: bool)
    requires
        i + needle@.len() <= haystack@.len(),
    ensures
        r == contains_at(haystack@, needle@, i as int),
{
    let nlen = needle.unicode_len();
    let hlen = haystack.unicode_len();
    let mut j: usize = 0;
    while j < nlen
        invariant
            nlen == needle@.len(),
            hlen == haystack@.len(),
            i + nlen <= hlen,
            j <= nlen,
            forall|k: int| 0 <= k < j ==> haystack@[i + k] == needle@[k],
        decreases nlen - j,
    {
        if haystack.get_char(i + j) != needle.get_char(j) {
            assert(!contains_at(haystack@, needle@, i as int)) by {
                if haystack@.subrange(i as int, i + nlen) == needle@ {
                    assert(haystack@.subrange(i as int, i + nlen)[j as int] == needle@[j as int]);
                }
            }
            return false;
        }
        j = j + 1;
    }
    proof {
        assert(haystack@.subrange(i as int, i + nlen) =~= needle@);
    }
    true
}

/// Substring search: does `needle` occur anywhere in `haystack`?
pub fn str_contains(haystack: &str, needle: &str) -> (r: bool)
    ensures
        r == contains_seq(haystack@, needle@),
{
    let hlen = haystack.unicode_len();
    let nlen = needle.unicode_len();
    if nlen > hlen {
        assert(forall|i: int| !contains_at(haystack@, needle@, i));
        return false;
    }
    if nlen == 0 {
        assert(contains_at(haystack@, needle@, 0)) by {
            assert(haystack@.subrange(0, 0) =~= needle@);
        }
        return true;
    }
    let mut i: usize = 0;
    while i < hlen - nlen + 1
        invariant
            hlen == haystack@.len(),
            nlen == needle@.len(),
            0 < nlen <= hlen,
            i <= hlen - nlen + 1,
            forall|k: int| 0 <= k < i ==> !contains_at(haystack@, needle@, k),
        decreases hlen - nlen + 1 - i,
    {
        if match_at(haystack, needle, i) {
            return true;
        }
        i = i + 1;
    }
    assert(forall|k: int| !contains_at(haystack@, needle@, k));
    false
}

/// Prefix test.
pub fn str_starts_with(s: &str, prefix: &str) -> (r: bool)
    ensures
        r == starts_with_seq(s@, prefix@),
{
    let plen = prefix.unicode_len();
    let slen = s.unicode_len();
    if plen > slen {
        return false;
    }
    match_at(s, prefix, 0)
}

/// Suffix test.
pub fn str_ends_with(s: &str, suffix: &str) -> (r: bool)
    ensures
        r == ends_with_seq(s@, suffix@),
{
    let xlen = suffix.unicode_len();
    let slen = s.unicode_len();
    if xlen > slen {
        return false;
    }
    match_at(s, suffix, slen - xlen)
}

/// Lexicographic order on character sequences by scalar value. Rust's string
/// ordering compares UTF-8 bytes, which orders exactly like scalar values.
pub open spec fn lex_lt(a: Seq<char>, b: Seq<char>) -> bool
    decreases a.len(),
{
    if b.len() == 0 {
        false
    } else if a.len() == 0 {
        true
    } else if a[0] != b[0] {
        a[0] < b[0]
    } else {
        lex_lt(a.drop_first(), b.drop_first())
    }
}

/// Dropping an equal prefix of both sequences does not change their order.
proof fn lemma_lex_lt_skip(a: Seq<char>, b: Seq<char>, i: int)
    requires
        0 <= i <= a.len(),
        i <= b.len(),
        forall|j: int| 0 <= j < i ==> a[j] == b[j],
    ensures
        lex_lt(a, b) == lex_lt(a.skip(i), b.skip(i)),
    decreases i,
{
    if i == 0 {
        assert(a.skip(0) =~= a);
        assert(b.skip(0) =~= b);
    } else {
        assert(a[0] == b[0]);
        assert forall|j: int| 0 <= j < i - 1 implies a.drop_first()[j] == b.drop_first()[j] by {
            assert(a.drop_first()[j] == a[j + 1]);
            assert(b.drop_first()[j] == b[j + 1]);
            assert(a[j + 1] == b[j + 1]);
        }
        lemma_lex_lt_skip(a.drop_first(), b.drop_first(), i - 1);
        assert(a.drop_first().skip(i - 1) =~= a.skip(i));
        assert(b.drop_first().skip(i - 1) =~= b.skip(i));
    }
}

/// Lexicographic comparison of two strings, as Rust's `<` on `str` orders
/// them.
pub fn str_lt(a: &str, b: &str) -> (r: bool)
    ensures
        r == lex_lt(a@, b@),
{
    let alen = a.unicode_len();
    let blen = b.unicode_len();
    let mut i: usize = 0;
    while i < alen && i < blen
        invariant
            alen == a@.len(),
            blen == b@.len(),
            i <= alen,
            i <= blen,
            forall|j: int| 0 <= j < i ==> a@[j] == b@[j],
        decreases alen - i,
    {
        let ca = a.get_char(i);
        let cb = b.get_char(i);
        if ca != cb {
            proof {
                lemma_lex_lt_skip(a@, b@, i as int);
            }
            return ca < cb;
        }
        i = i + 1;
    }
    proof {
        lemma_lex_lt_skip(a@, b@, i as int);
    }
    alen < blen
}

/// The lexicographic order is irreflexive.
pub proof fn lemma_lex_lt_irrefl(a: Seq<char>)
    ensures
        !lex_lt(a, a),
    decreases a.len(),
{
    if a.len() > 0 {
        lemma_lex_lt_irrefl(a.drop_first());
    }
}

/// The lexicographic order is transitive.
pub proof fn lemma_lex_lt_trans(a: Seq<char>, b: Seq<char>, c: Seq<char>)
    requires
        lex_lt(a, b),
        lex_lt(b, c),
    ensures
        lex_lt(a, c),
    decreases a.len(),
{
    if a.len() > 0 {
        if a[0] == b[0] && b[0] == c[0] {
            lemma_lex_lt_trans(a.drop_first(), b.drop_first(), c.drop_first());
        }
    }
}

/// The lexicographic order is total: two sequences compare one way, the
/// other way, or are equal.
pub proof fn lemma_lex_lt_total(a: Seq<char>, b: Seq<char>)
    ensures
        lex_lt(a, b) || lex_lt(b, a) || a == b,
    decreases a.len(),
{
    if a.len() == 0 && b.len() == 0 {
        assert(a =~= b);
    } else if a.len() > 0 && b.len() > 0 {
        if a[0] == b[0] {
            lemma_lex_lt_total(a.drop_first(), b.drop_first());
            if a.drop_first() == b.drop_first() {
                assert(a.len() == b.len()) by {
                    assert(a.drop_first().len() == b.drop_first().len());
                }
                assert forall|i: int| 0 <= i < a.len() implies a[i] == b[i] by {
                    if i >= 1 {
                        assert(a.drop_first()[i - 1] == b.drop_first()[i - 1]);
                        assert(a.drop_first()[i - 1] == a[i]);
                        assert(b.drop_first()[i - 1] == b[i]);
                    }
                }
                assert(a =~= b);
            }
        }
    }
}

/// Does `c` occur in `s`?
pub fn str_has_char(s: &str, c: char) -> (r: bool)
    ensures
        r == s@.contains(c),
{
    let len = s.unicode_len();
    let mut i: usize = 0;
    while i < len
        invariant
            len == s@.len(),
            i <= len,
            forall|j: int| 0 <= j < i ==> s@[j] != c,
        decreases len - i,
    {
        if s.get_char(i) == c {
            return true;
        }
        i = i + 1;
    }
    false
}

/// `d` names a direct child of the directory `parent`: it is `parent`, a
/// `/`, and a non-empty name without further separators.
pub open spec fn is_child_path(d: Seq<char>, parent: Seq<char>) -> bool {
    &&& d.len() > parent.len() + 1
    &&& d.subrange(0, parent.len() + 1 as int) == parent.push('/')
    &&& forall|k: int| parent.len() + 1 <= k < d.len() ==> d[k] != '/'
}

/// The name part of a child path: everything after `parent` and its
/// separator.
pub open spec fn child_name(d: Seq<char>, parent: Seq<char>) -> Seq<char> {
    d.skip(parent.len() + 1 as int)
}

/// When `d` is a direct child of the directory `parent`, its name.
pub fn get_child_name<'a>(d: &'a str, parent: &str) -> (r: Option<&'a str>)
    ensures
        match r {
            Some(n) => is_child_path(d@, parent@) && n@ == child_name(d@, parent@),
            None => !is_child_path(d@, parent@),
        },
{
    let dlen = d.unicode_len();
    let plen = parent.unicode_len();
    if plen >= dlen || dlen - plen < 2 {
        return None;
    }
    let prefix = join_path(parent, "");
    proof {
        reveal_strlit("");
        assert(prefix@ =~= parent@.push('/'));
    }
    if !str_starts_with(d, prefix.as_str()) {
        proof {
            if is_child_path(d@, parent@) {
                assert(starts_with_seq(d@, prefix@));
            }
        }
        return None;
    }
    let rest = d.substring_char(plen + 1, dlen);
    if str_has_char(rest, '/') {
        proof {
            let j = choose|j: int| 0 <= j < rest@.len() && rest@[j] == '/';
            assert(d@[plen + 1 + j] == '/');
        }
        return None;
    }
    proof {
        assert(rest@ =~= child_name(d@, parent@));
        assert(d@.subrange(0, plen + 1 as int) =~= prefix@);
        assert forall|k: int| plen + 1 <= k < d@.len() implies d@[k] != '/' by {
            assert(rest@[k - (plen + 1)] == d@[k]);
        }
    }
    Some(rest)
}

/// The bytes of an ASCII character sequence, one byte per character.
pub open spec fn ascii_bytes(s: Seq<char>) -> Seq<u8> {
    Seq::new(s.len(), |i: int| s[i] as u8)
}

/// Appends the bytes of an ASCII string to a byte buffer.
pub fn push_ascii(out: &mut Vec<u8>, s: &str)
    requires
        vstd::string::is_ascii(s),
    ensures
        final(out)@ == old(out)@ + ascii_bytes(s@),
{
    let len = s.unicode_len();
    let mut i: usize = 0;
    proof {
        assert(out@ =~= old(out)@ + ascii_bytes(s@).subrange(0, 0));
    }
    while i < len
        invariant
            vstd::string::is_ascii(s),
            len == s@.len(),
            i <= len,
            out@ == old(out)@ + ascii_bytes(s@).subrange(0, i as int),
        decreases len - i,
    {
        let b = s.get_ascii(i);
        out.push(b);
        proof {
            assert(out@ =~= old(out)@ + ascii_bytes(s@).subrange(0, i + 1));
        }
        i = i + 1;
    }
    proof {
        assert(ascii_bytes(s@).subrange(0, s@.len() as int) =~= ascii_bytes(s@));
    }
}

/// Lower-cases one character, ASCII-only: letters `A` through `Z` map to
/// their lower-case forms and every other character is unchanged.
pub open spec fn lower_char(c: char) -> char {
    if 'A' <= c <= 'Z' {
        ((c as u32) + 32) as char
    } else {
        c
    }
}

/// `s`, lower-cased character by character (ASCII case folding).
pub open spec fn lower_seq(s: Seq<char>) -> Seq<char> {
    Seq::new(s.len(), |i: int| lower_char(s[i]))
}

/// Lower-cases one character (ASCII case folding).
pub fn ascii_lower_char(c: char) -> (r: char)
    ensures
        r == lower_char(c),
{
    if 'A' <= c && c <= 'Z' {
        let code = (c as u8) + 32;
        code as char
    } else {
        c
    }
}

/// Relies on String::push: appends exactly the given character.
#[verifier::external_body]
pub fn push_char(s: &mut String, c: char)
    ensures
        final(s)@ == old(s)@.push(c),
{
    s.push(c);
}

/// Lower-cases a string character by character (ASCII case folding; unlike
/// Unicode case folding, characters outside `A`..`Z` are left unchanged).
pub fn to_ascii_lower(s: &str) -> (r: String)
    ensures
        r@ == lower_seq(s@),
{
    let len = s.unicode_len();
    let mut out = String::new();
    let mut i: usize = 0;
    proof {
        assert(out@ =~= lower_seq(s@).subrange(0, 0));
    }
    while i < len
        invariant
            len == s@.len(),
            i <= len,
            out@ == lower_seq(s@).subrange(0, i as int),
        decreases len - i,
    {
        let c = s.get_char(i);
        push_char(&mut out, ascii_lower_char(c));
        proof {
            assert(out@ =~= lower_seq(s@).subrange(0, i + 1));
        }
        i = i + 1;
    }
    proof {
        assert(lower_seq(s@).subrange(0, s@.len() as int) =~= lower_seq(s@));
    }
    out
}

/// The part of `s` after its last `/`; the whole of `s` when it has none.
pub open spec fn last_component(s: Seq<char>) -> Seq<char>
    decreases s.len(),
{
    if s.len() == 0 {
        s
    } else if s[s.len() - 1] == '/' {
        Seq::<char>::empty()
    } else {
        last_component(s.drop_last()).push(s[s.len() - 1])
    }
}

proof fn lemma_last_component(s: Seq<char>, k: int)
    requires
        0 <= k <= s.len(),
        forall|j: int| k <= j < s.len() ==> s[j] != '/',
        k > 0 ==> s[k - 1] == '/',
    ensures
        last_component(s) == s.subrange(k, s.len() as int),
    decreases s.len() - k, s.len(),
{
    if k == s.len() {
        if k == 0 {
            assert(s.subrange(0, 0) =~= s);
        } else {
            assert(last_component(s) =~= s.subrange(k, s.len() as int));
        }
    } else {
        assert(s[s.len() - 1] != '/');
        assert forall|j: int| k <= j < s.len() - 1 implies s.drop_last()[j] != '/' by {
            assert(s.drop_last()[j] == s[j]);
        }
        if k > 0 {
            assert(s.drop_last()[k - 1] == s[k - 1]);
        }
        lemma_last_component(s.drop_last(), k);
        assert(last_component(s) == s.drop_last().subrange(k, s.len() - 1).push(
            s[s.len() - 1],
        ));
        assert(s.drop_last().subrange(k, s.len() - 1).push(s[s.len() - 1]) =~= s.subrange(
            k,
            s.len() as int,
        ));
    }
}

/// The base name of a path: everything after the last `/` separator. A path
/// with a trailing separator therefore has an empty base name; callers pass
/// paths without one.
pub fn get_last_path_component(path: &str) -> (r: &str)
    ensures
        r@ == last_component(path@),
{
    let len = path.unicode_len();
    let mut k: usize = len;
    while k > 0
        invariant
            len == path@.len(),
            k <= len,
            forall|j: int| k <= j < len ==> path@[j] != '/',
        ensures
            k <= len,
            forall|j: int| k <= j < len ==> path@[j] != '/',
            k > 0 ==> path@[k - 1] == '/',
        decreases k,
    {
        if path.get_char(k - 1) == '/' {
            break ;
        }
        k = k - 1;
    }
    proof {
        lemma_last_component(path@, k as int);
    }
    path.substring_char(k, len)
}

/// `base` and `child` joined with a single `/` separator.
pub open spec fn join_path_seq(base: Seq<char>, child: Seq<char>) -> Seq<char> {
    base.push('/') + child
}

/// Joins a directory path and a child name with a `/` separator.
pub fn join_path(base: &str, child: &str) -> (r: String)
    ensures
        r@ == join_path_seq(base@, child@),
{
    let mut out = String::new();
    out.append(base);
    push_char(&mut out, '/');
    out.append(child);
    proof {
        assert(out@ =~= join_path_seq(base@, child@));
    }
    out
}

/// The decimal digit character for `d`.
pub open spec fn dec_digit(d: int) -> u8 {
    (48 + d) as u8
}

/// The ASCII decimal rendering of `n`, with no leading zeros.
pub open spec fn dec_bytes(n: nat) -> Seq<u8>
    decreases n,
{
    if n < 10 {
        seq![dec_digit(n as int)]
    } else {
        dec_bytes(n / 10).push(dec_digit((n % 10) as int))
    }
}

/// Appends the decimal rendering of `n` to a byte buffer.
pub fn push_dec(out: &mut Vec<u8>, n: u64)
    ensures
        final(out)@ == old(out)@ + dec_bytes(n as nat),
{
    let mut digits: Vec<u8> = Vec::new();
    let mut m: u64 = n;
    proof {
        assert(dec_bytes(n as nat) =~= dec_bytes(n as nat) + Seq::<u8>::empty().reverse());
    }
    loop
        invariant
            dec_bytes(n as nat) == dec_bytes(m as nat) + digits@.reverse(),
        ensures
            m < 10,
            dec_bytes(n as nat) == seq![dec_digit(m as int)] + digits@.reverse(),
        decreases m,
    {
        if m < 10 {
            proof {
                assert(dec_bytes(m as nat) == seq![dec_digit(m as int)]);
            }
            break ;
        }
        let d = (m % 10) as u8;
        let ghost prev = digits@;
        digits.push(48 + d);
        proof {
            assert(48 + d == dec_digit((m % 10) as int));
            assert(dec_bytes(m as nat) == dec_bytes((m / 10) as nat).push(
                dec_digit((m % 10) as int),
            ));
            assert(dec_bytes((m / 10) as nat) + digits@.reverse() =~= dec_bytes(m as nat)
                + prev.reverse());
        }
        m = m / 10;
    }
    out.push(48 + (m as u8));
    let ghost mid = out@;
    proof {
        assert(mid =~= old(out)@ + seq![dec_digit(m as int)]);
        assert(mid =~= mid + digits@.reverse().subrange(0, 0));
    }
    let mut i: usize = digits.len();
    while i > 0
        invariant
            i <= digits@.len(),
            out@ == mid + digits@.reverse().subrange(0, digits@.len() - i),
        decreases i,
    {
        i = i - 1;
        let b = digits[i];
        out.push(b);
        proof {
            assert(digits@.reverse()[digits@.len() - 1 - i] == digits@[i as int]);
            assert(out@ =~= mid + digits@.reverse().subrange(0, digits@.len() - i));
        }
    }
    proof {
        assert(digits@.reverse().subrange(0, digits@.len() as int) =~= digits@.reverse());
        assert(out@ =~= old(out)@ + dec_bytes(n as nat));
    }
}

} // verus!
