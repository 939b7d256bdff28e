//! String helpers: the std string operations the library uses, stated over
//! character sequences, and small verified string functions.

use vstd::prelude::*;
use vstd::utf8::{decode_utf8, encode_utf8};

verus! {

broadcast use vstd::utf8::group_utf8_lib;

/// The Unicode `White_Space` characters, which `char::is_whitespace` and
/// `str::trim` use.
pub open spec fn is_white_space(c: char) -> bool {
    ||| ('\u{9}' <= c && c <= '\u{d}')
    ||| c == ' '
    ||| c == '\u{85}'
    ||| c == '\u{a0}'
    ||| c == '\u{1680}'
    ||| ('\u{2000}' <= c && c <= '\u{200a}')
    ||| c == '\u{2028}'
    ||| c == '\u{2029}'
    ||| c == '\u{202f}'
    ||| c == '\u{205f}'
    ||| c == '\u{3000}'
}

/// The sequence without its leading white space.
pub open spec fn trim_start(s: Seq<char>) -> Seq<char>
    decreases s.len(),
{
    if s.len() > 0 && is_white_space(s[0]) {
        trim_start(s.drop_first())
    } else {
        s
    }
}

/// The sequence without its trailing white space.
pub open spec fn trim_end(s: Seq<char>) -> Seq<char>
    decreases s.len(),
{
    if s.len() > 0 && is_white_space(s.last()) {
        trim_end(s.drop_last())
    } else {
        s
    }
}

/// The sequence without leading and trailing white space.
pub open spec fn trimmed(s: Seq<char>) -> Seq<char> {
    trim_end(trim_start(s))
}

proof fn lemma_trim_start_first(s: Seq<char>)
    ensures
        trim_start(s).len() == 0 || !is_white_space(trim_start(s)[0]),
    decreases s.len(),
{
    if s.len() > 0 && is_white_space(s[0]) {
        lemma_trim_start_first(s.drop_first());
    }
}

proof fn lemma_trim_end_prefix(s: Seq<char>)
    ensures
        trim_end(s).len() <= s.len(),
        trim_end(s) =~= s.subrange(0, trim_end(s).len() as int),
        trim_end(s).len() == 0 || !is_white_space(trim_end(s).last()),
    decreases s.len(),
{
    if s.len() > 0 && is_white_space(s.last()) {
        lemma_trim_end_prefix(s.drop_last());
    }
}

/// Trimming twice is trimming once: reading `s` and reading `s.trim()` see
/// the same characters.
pub proof fn lemma_trimmed_idempotent(s: Seq<char>)
    ensures
        trimmed(trimmed(s)) == trimmed(s),
{
    let t = trim_start(s);
    lemma_trim_start_first(s);
    let u = trim_end(t);
    lemma_trim_end_prefix(t);
    if u.len() > 0 {
        assert(u[0] == t[0]);
    }
    assert(trim_start(u) == u);
    assert(trim_end(u) == u);
}

/// Whether a character is `White_Space` (`char::is_whitespace`).
pub fn is_white_space_char(c: char) -> (r: bool)
    ensures
        r == is_white_space(c),
{
    ('\u{9}' <= c && c <= '\u{d}') || c == ' ' || c == '\u{85}' || c == '\u{a0}' || c == '\u{1680}' || (
    '\u{2000}' <= c && c <= '\u{200a}') || c == '\u{2028}' || c == '\u{2029}' || c == '\u{202f}' || c
        == '\u{205f}' || c == '\u{3000}'
}

proof fn lemma_trim_start_of(s: Seq<char>, k: int)
    requires
        0 <= k <= s.len(),
        forall|j: int| 0 <= j < k ==> is_white_space(#[trigger] s[j]),
        k == s.len() || !is_white_space(s[k]),
    ensures
        trim_start(s) == s.skip(k),
    decreases k,
{
    if k > 0 {
        lemma_trim_start_of(s.drop_first(), k - 1);
        assert(s.drop_first().skip(k - 1) =~= s.skip(k));
    } else {
        assert(s.skip(0) =~= s);
    }
}

proof fn lemma_trim_end_of(s: Seq<char>, k: int)
    requires
        0 <= k <= s.len(),
        forall|j: int| k <= j < s.len() ==> is_white_space(#[trigger] s[j]),
        k == 0 || !is_white_space(s[k - 1]),
    ensures
        trim_end(s) == s.subrange(0, k),
    decreases s.len(),
{
    if s.len() > k {
        lemma_trim_end_of(s.drop_last(), k);
        assert(s.drop_last().subrange(0, k) =~= s.subrange(0, k));
    } else {
        assert(s.subrange(0, k) =~= s);
    }
}

/// The string without leading and trailing `White_Space` (`str::trim`).
pub fn trim(s: &str) -> (r: &str)
    ensures
        r@ == trimmed(s@),
{
    let n = s.unicode_len();
    let mut start: usize = 0;
    while start < n && is_white_space_char(s.get_char(start))
        invariant
            n == s@.len(),
            0 <= start <= n,
            forall|j: int| 0 <= j < start ==> is_white_space(#[trigger] s@[j]),
        decreases n - start,
    {
        start = start + 1;
    }
    let mut end: usize = n;
    while end > start && is_white_space_char(s.get_char(end - 1))
        invariant
            n == s@.len(),
            start <= end <= n,
            forall|j: int| end <= j < n ==> is_white_space(#[trigger] s@[j]),
        decreases end,
    {
        end = end - 1;
    }
    proof {
        lemma_trim_start_of(s@, start as int);
        let t = s@.skip(start as int);
        assert forall|j: int| end - start <= j < t.len() implies is_white_space(#[trigger] t[j]) by {
            assert(t[j] == s@[j + start]);
        }
        if end > start {
            assert(t[end - start - 1] == s@[end - 1]);
        }
        lemma_trim_end_of(t, end - start);
        assert(t.subrange(0, end - start) =~= s@.subrange(start as int, end as int));
    }
    s.substring_char(start, end)
}

/// The string without trailing `White_Space` (`str::trim_end`).
pub fn trim_end_str(s: &str) -> (r: &str)
    ensures
        r@ == trim_end(s@),
{
    let n = s.unicode_len();
    let mut end: usize = n;
    while end > 0 && is_white_space_char(s.get_char(end - 1))
        invariant
            n == s@.len(),
            0 <= end <= n,
            forall|j: int| end <= j < n ==> is_white_space(#[trigger] s@[j]),
        decreases end,
    {
        end = end - 1;
    }
    proof {
        lemma_trim_end_of(s@, end as int);
    }
    s.substring_char(0, end)
}

/// The rest of the string when it starts with the prefix
/// (`str::strip_prefix`).
pub fn strip_prefix<'a>(s: &'a str, prefix: &str) -> (r: Option<&'a str>)
    ensures
        r is Some <==> prefix@.is_prefix_of(s@),
        r matches Some(rest) ==> rest@ == s@.skip(prefix@.len() as int),
{
    let n = s.unicode_len();
    let m = prefix.unicode_len();
    if m > n {
        return None;
    }
    let mut i: usize = 0;
    while i < m
        invariant
            n == s@.len(),
            m == prefix@.len(),
            m <= n,
            0 <= i <= m,
            forall|j: int| 0 <= j < i ==> #[trigger] prefix@[j] == s@[j],
        decreases m - i,
    {
        if prefix.get_char(i) != s.get_char(i) {
            return None;
        }
        i = i + 1;
    }
    proof {
        assert(s@.subrange(0, m as int) =~= prefix@);
        assert(s@.subrange(m as int, n as int) =~= s@.skip(m as int));
    }
    Some(s.substring_char(m, n))
}

/// Whether the string ends with the suffix (`str::ends_with`).
pub fn ends_with(s: &str, suffix: &str) -> (r: bool)
    ensures
        r == suffix@.is_suffix_of(s@),
{
    let n = s.unicode_len();
    let m = suffix.unicode_len();
    if m > n {
        return false;
    }
    let mut i: usize = 0;
    while i < m
        invariant
            n == s@.len(),
            m == suffix@.len(),
            m <= n,
            0 <= i <= m,
            forall|j: int| 0 <= j < i ==> #[trigger] suffix@[j] == s@[n - m + j],
        decreases m - i,
    {
        if suffix.get_char(i) != s.get_char(n - m + i) {
            assert(s@.subrange(n - m, n as int)[i as int] == s@[n - m + i]);
            return false;
        }
        i = i + 1;
    }
    assert(s@.subrange(n - m, n as int) =~= suffix@);
    true
}

/// What `std::path::Path::file_stem` gives for a path written as a string.
/// The answer follows the path rules of the target the library is built
/// for (its separators), which are fixed for a given build.
pub uninterp spec fn path_file_stem_result(path: Seq<char>) -> Option<Seq<char>>;

/// What `std::path::Path::parent` gives for a path written as a string.
/// The answer follows the path rules of the target the library is built
/// for (its separators), which are fixed for a given build.
pub uninterp spec fn path_parent_result(path: Seq<char>) -> Option<Seq<char>>;

/// What `std::path::Path::extension` gives for a path written as a string.
/// The answer follows the path rules of the target the library is built
/// for (its separators), which are fixed for a given build.
pub uninterp spec fn path_extension_result(path: Seq<char>) -> Option<Seq<char>>;

/// What `std::path::Path::file_name` gives for a path written as a string.
/// The answer follows the path rules of the target the library is built
/// for (its separators), which are fixed for a given build.
pub uninterp spec fn path_file_name_result(path: Seq<char>) -> Option<Seq<char>>;

/// Calls `std::path::Path::file_stem` on a path given as a string; the stem,
/// cut from a UTF-8 path at ASCII separators, is read back as a string.
/// Claims only that the result is the named one.
#[verifier::external_body]
pub(crate) fn path_file_stem(path: &str) -> (r: Option<&str>)
    ensures
        r matches Some(s) ==> path_file_stem_result(path@) == Some(s@),
        r is None ==> path_file_stem_result(path@) is None,
{
    std::path::Path::new(path).file_stem().and_then(|s| s.to_str())
}

/// Calls `std::path::Path::parent` on a path given as a string, read back as
/// a string. Claims only that the result is the named one.
#[verifier::external_body]
pub(crate) fn path_parent(path: &str) -> (r: Option<&str>)
    ensures
        r matches Some(s) ==> path_parent_result(path@) == Some(s@),
        r is None ==> path_parent_result(path@) is None,
{
    std::path::Path::new(path).parent().and_then(|p| p.to_str())
}

/// Calls `std::path::Path::extension` on a path given as a string, read back
/// as a string. Claims only that the result is the named one.
#[verifier::external_body]
pub(crate) fn path_extension(path: &str) -> (r: Option<&str>)
    ensures
        r matches Some(s) ==> path_extension_result(path@) == Some(s@),
        r is None ==> path_extension_result(path@) is None,
{
    std::path::Path::new(path).extension().and_then(|s| s.to_str())
}

/// Calls `std::path::Path::file_name` on a path given as a string, read back
/// as a string. Claims only that the result is the named one.
#[verifier::external_body]
pub(crate) fn path_file_name(path: &str) -> (r: Option<&str>)
    ensures
        r matches Some(s) ==> path_file_name_result(path@) == Some(s@),
        r is None ==> path_file_name_result(path@) is None,
{
    std::path::Path::new(path).file_name().and_then(|s| s.to_str())
}

/// A decimal digit.
pub open spec fn is_digit(c: char) -> bool {
    '0' <= c && c <= '9'
}

/// The value of a sequence of decimal digits.
pub open spec fn digits_value(s: Seq<char>) -> int
    decreases s.len(),
{
    if s.len() == 0 {
        0
    } else {
        digits_value(s.drop_last()) * 10 + (s.last() as int - 48)
    }
}

/// Every character is a decimal digit.
pub open spec fn all_digits(d: Seq<char>) -> bool {
    forall|i: int| 0 <= i < d.len() ==> is_digit(#[trigger] d[i])
}

/// The digits part of a decimal text: the text without its sign.
pub open spec fn unsigned_part(s: Seq<char>) -> Seq<char> {
    if s.len() > 0 && (s[0] == '+' || s[0] == '-') {
        s.drop_first()
    } else {
        s
    }
}

/// An optional `+` or `-` followed by one or more decimal digits, and nothing
/// else, read as an integer.
pub open spec fn decimal_value(s: Seq<char>) -> Option<int> {
    let digits = unsigned_part(s);
    if digits.len() > 0 && all_digits(digits) {
        Some(if s.len() > 0 && s[0] == '-' { -digits_value(digits) } else { digits_value(digits) })
    } else {
        None
    }
}

proof fn lemma_digits_value_nonneg(s: Seq<char>)
    requires
        forall|i: int| 0 <= i < s.len() ==> is_digit(#[trigger] s[i]),
    ensures
        digits_value(s) >= 0,
    decreases s.len(),
{
    if s.len() > 0 {
        lemma_digits_value_nonneg(s.drop_last());
    }
}

/// Appending digits never makes a number of digits smaller.
proof fn lemma_digits_value_grows(s: Seq<char>, k: int)
    requires
        0 <= k <= s.len(),
        forall|i: int| 0 <= i < s.len() ==> is_digit(#[trigger] s[i]),
    ensures
        digits_value(s.take(k)) <= digits_value(s),
    decreases s.len(),
{
    if k < s.len() {
        lemma_digits_value_grows(s.drop_last(), k);
        lemma_digits_value_nonneg(s.drop_last());
        assert(s.drop_last().take(k) =~= s.take(k));
    } else {
        assert(s.take(k) =~= s);
    }
}

proof fn lemma_not_decimal(s: Seq<char>, j: int)
    requires
        0 <= j < unsigned_part(s).len(),
        !is_digit(unsigned_part(s)[j]),
    ensures
        decimal_value(s) is None,
{
}

proof fn lemma_decimal_too_large(s: Seq<char>)
    requires
        digits_value(unsigned_part(s)) > 2147483648,
    ensures
        decimal_value(s) matches Some(x) ==> !(i32::MIN <= x <= i32::MAX),
{
}

/// Reads an optional sign followed by decimal digits as an `i32`, and nothing
/// when the text is anything else or the value does not fit
/// (`<i32 as FromStr>::from_str`).
pub fn parse_i32(s: &str) -> (r: Option<i32>)
    ensures
        r == (match decimal_value(s@) {
            Some(v) => if i32::MIN <= v <= i32::MAX { Some(v as i32) } else { None },
            None => None,
        }),
{
    let n = s.unicode_len();
    if n == 0 {
        return None;
    }
    let first = s.get_char(0);
    let signed = first == '+' || first == '-';
    let negative = first == '-';
    let start: usize = if signed { 1 } else { 0 };
    let ghost digits = unsigned_part(s@);
    proof {
        assert(digits =~= s@.skip(start as int));
    }
    if start == n {
        return None;
    }
    let mut i: usize = start;
    let mut v: i64 = 0;
    while i < n
        invariant
            n == s@.len(),
            0 <= start < n,
            digits == s@.skip(start as int),
            digits == unsigned_part(s@),
            negative == (s@.len() > 0 && s@[0] == '-'),
            negative ==> start == 1,
            start <= i <= n,
            forall|j: int| start <= j < i ==> is_digit(#[trigger] s@[j]),
            v == digits_value(digits.take(i - start)),
            0 <= v <= 2147483648,
        decreases n - i,
    {
        let c = s.get_char(i);
        if !('0' <= c && c <= '9') {
            assert(digits[i - start] == s@[i as int]);
            proof {
                lemma_not_decimal(s@, i - start);
            }
            return None;
        }
        let d = (c as u32 - 48) as i64;
        proof {
            assert(digits.take(i - start + 1).drop_last() =~= digits.take(i - start));
            assert(digits.take(i - start + 1).last() == c);
        }
        let next = v * 10 + d;
        if next > 2147483648 {
            proof {
                if all_digits(digits) {
                    lemma_digits_value_grows(digits, i - start + 1);
                    lemma_decimal_too_large(s@);
                }
            }
            return None;
        }
        v = next;
        i = i + 1;
    }
    proof {
        assert(digits.take(n - start) =~= digits);
        assert forall|j: int| 0 <= j < digits.len() implies is_digit(#[trigger] digits[j]) by {
            assert(digits[j] == s@[j + start]);
        }
    }
    if negative {
        Some((0 - v) as i32)
    } else if v > 2147483647 {
        None
    } else {
        Some(v as i32)
    }
}

/// Whether two strings hold the same characters; compares their UTF-8 bytes.
pub fn str_eq(a: &str, b: &str) -> (r: bool)
    ensures
        r == (a@ == b@),
{
    let x = a.as_bytes();
    let y = b.as_bytes();
    proof {
        assert(decode_utf8(encode_utf8(a@)) == a@);
        assert(decode_utf8(encode_utf8(b@)) == b@);
    }
    if x.len() != y.len() {
        return false;
    }
    let mut i: usize = 0;
    while i < x.len()
        invariant
            x.len() == y.len(),
            a@ == b@ ==> x@ == y@,
            0 <= i <= x.len(),
            forall|j: int| 0 <= j < i ==> x@[j] == y@[j],
        decreases x.len() - i,
    {
        if x[i] != y[i] {
            assert(x@ != y@);
            return false;
        }
        i = i + 1;
    }
    assert(x@ =~= y@);
    true
}

/// Whether an optional string equals a given string.
pub fn opt_str_eq(a: Option<&str>, b: &str) -> (r: bool)
    ensures
        r == (a matches Some(s) && s@ == b@),
{
    match a {
        Some(s) => str_eq(s, b),
        None => false,
    }
}

/// A copy of a string slice as an owned string.
pub fn to_owned(s: &str) -> (r: String)
    ensures
        r@ == s@,
{
    s.to_owned()
}

/// The string without its trailing `/` characters.
pub open spec fn trim_end_slashes(s: Seq<char>) -> Seq<char>
    decreases s.len(),
{
    if s.len() > 0 && s.last() == '/' {
        trim_end_slashes(s.drop_last())
    } else {
        s
    }
}

/// A directory path written with exactly one trailing `/`.
pub open spec fn dir_prefix_text(s: Seq<char>) -> Seq<char> {
    trim_end_slashes(s) + seq!['/']
}

proof fn lemma_trim_end_slashes_prefix(s: Seq<char>)
    ensures
        trim_end_slashes(s).len() <= s.len(),
        trim_end_slashes(s) =~= s.subrange(0, trim_end_slashes(s).len() as int),
        forall|k: int| trim_end_slashes(s).len() <= k < s.len() ==> s[k] == '/',
        trim_end_slashes(s).len() == 0 || trim_end_slashes(s).last() != '/',
    decreases s.len(),
{
    if s.len() > 0 && s.last() == '/' {
        let t = s.drop_last();
        lemma_trim_end_slashes_prefix(t);
        assert forall|k: int| trim_end_slashes(s).len() <= k < s.len() implies s[k] == '/' by {
            if k < t.len() {
                assert(s[k] == t[k]);
            }
        }
    }
}

proof fn lemma_trim_end_slashes_of(s: Seq<char>, k: int)
    requires
        0 <= k <= s.len(),
        forall|j: int| k <= j < s.len() ==> s[j] == '/',
        k == 0 || s[k - 1] != '/',
    ensures
        trim_end_slashes(s) == s.subrange(0, k),
    decreases s.len(),
{
    if s.len() > k {
        assert(s.last() == '/');
        lemma_trim_end_slashes_of(s.drop_last(), k);
        assert(s.drop_last().subrange(0, k) =~= s.subrange(0, k));
    } else {
        assert(s.subrange(0, k) =~= s);
    }
}

/// The text without its trailing `/` characters (`s.trim_end_matches('/')`).
pub fn strip_trailing_slashes(s: &str) -> (r: &str)
    ensures
        r@ == trim_end_slashes(s@),
{
    let n = s.unicode_len();
    let mut k = n;
    while k > 0 && s.get_char(k - 1) == '/'
        invariant
            n == s@.len(),
            0 <= k <= n,
            forall|j: int| k <= j < n ==> s@[j] == '/',
        decreases k,
    {
        k = k - 1;
    }
    proof {
        lemma_trim_end_slashes_of(s@, k as int);
    }
    s.substring_char(0, k)
}

/// The text without trailing `/` characters, followed by a single `/`
/// (`format!("{}/", s.trim_end_matches('/'))`).
pub fn dir_prefix(s: &str) -> (r: String)
    ensures
        r@ == dir_prefix_text(s@),
{
    let mut out = String::from_str(strip_trailing_slashes(s));
    out.append("/");
    proof {
        reveal_strlit("/");
    }
    out
}

/// Trimming slashes once is enough: a second trim changes nothing, so the
/// directory prefix of a directory prefix is itself.
pub proof fn lemma_dir_prefix_idempotent(s: Seq<char>)
    ensures
        dir_prefix_text(dir_prefix_text(s)) == dir_prefix_text(s),
        dir_prefix_text(s).last() == '/',
{
    let t = trim_end_slashes(s);
    lemma_trim_end_slashes_prefix(s);
    let d = t + seq!['/'];
    assert(d.drop_last() =~= t);
    lemma_trim_end_slashes_of(d, t.len() as int);
    assert(d.subrange(0, t.len() as int) =~= t);
}

/// Byte-wise lexicographic order, the order of `String`.
pub open spec fn bytes_le(a: Seq<u8>, b: Seq<u8>) -> bool
    decreases a.len(),
{
    if a.len() == 0 {
        true
    } else if b.len() == 0 {
        false
    } else if a[0] != b[0] {
        a[0] < b[0]
    } else {
        bytes_le(a.drop_first(), b.drop_first())
    }
}

/// The order of two strings: by their UTF-8 bytes.
pub open spec fn string_le(a: String, b: String) -> bool {
    bytes_le(encode_utf8(a@), encode_utf8(b@))
}

/// The byte-wise order is total and transitive.
pub proof fn lemma_bytes_le_order(a: Seq<u8>, b: Seq<u8>, c: Seq<u8>)
    ensures
        bytes_le(a, b) || bytes_le(b, a),
        bytes_le(a, b) && bytes_le(b, c) ==> bytes_le(a, c),
    decreases a.len(),
{
    if a.len() > 0 && b.len() > 0 && c.len() > 0 {
        lemma_bytes_le_order(a.drop_first(), b.drop_first(), c.drop_first());
    } else if a.len() > 0 && b.len() > 0 {
        if a[0] == b[0] {
            lemma_bytes_le_order(a.drop_first(), b.drop_first(), a.drop_first());
        }
    }
}

/// Whether a string comes no later than another in byte-wise order.
pub fn string_le_exec(a: &String, b: &String) -> (r: bool)
    ensures
        r == string_le(*a, *b),
{
    let x = a.as_str().as_bytes();
    let y = b.as_str().as_bytes();
    let mut i: usize = 0;
    proof {
        assert(x@.skip(0) =~= x@);
        assert(y@.skip(0) =~= y@);
    }
    while i < x.len() && i < y.len() && x[i] == y[i]
        invariant
            0 <= i <= x.len(),
            i <= y.len(),
            forall|j: int| 0 <= j < i ==> x@[j] == y@[j],
            bytes_le(x@, y@) == bytes_le(x@.skip(i as int), y@.skip(i as int)),
        decreases x.len() - i,
    {
        proof {
            assert(x@.skip(i as int).drop_first() =~= x@.skip(i + 1));
            assert(y@.skip(i as int).drop_first() =~= y@.skip(i + 1));
        }
        i = i + 1;
    }
    if i == x.len() {
        true
    } else if i == y.len() {
        false
    } else {
        x[i] < y[i]
    }
}

/// Each string comes no later than the next ones.
pub open spec fn strings_sorted(s: Seq<String>) -> bool {
    forall|i: int, j: int| 0 <= i < j < s.len() ==> string_le(#[trigger] s[i], #[trigger] s[j])
}

/// The strings in byte-wise order.
pub fn sorted_strings(v: &Vec<String>) -> (r: Vec<String>)
    ensures
        strings_sorted(r@),
        r@.to_multiset() == v@.to_multiset(),
{
    let mut out: Vec<String> = Vec::new();
    let mut i: usize = 0;
    proof {
        assert(v@.take(0) =~= out@);
    }
    while i < v.len()
        invariant
            0 <= i <= v.len(),
            strings_sorted(out@),
            out@.to_multiset() == v@.take(i as int).to_multiset(),
        decreases v.len() - i,
    {
        let x = v[i].clone();
        let mut j: usize = 0;
        while j < out.len() && string_le_exec(&out[j], &x)
            invariant
                0 <= j <= out@.len(),
                forall|k: int| 0 <= k < j ==> string_le(#[trigger] out@[k], x),
            decreases out@.len() - j,
        {
            j = j + 1;
        }
        let ghost before = out@;
        out.insert(j, x);
        proof {
            assert forall|a: int, b: int| 0 <= a < b < out@.len() implies string_le(
                #[trigger] out@[a],
                #[trigger] out@[b],
            ) by {
                if a < j && b == j {
                } else if a == j && b > j {
                    lemma_bytes_le_order(encode_utf8(x@), encode_utf8(before[j as int]@), encode_utf8(before[b - 1]@));
                    if j + 1 < b {
                        assert(string_le(before[j as int], before[b - 1]));
                    }
                } else if a < j && b > j {
                    assert(string_le(before[a], before[b - 1]));
                } else if a > j {
                    assert(string_le(before[a - 1], before[b - 1]));
                } else {
                    assert(string_le(before[a], before[b]));
                }
            }
            assert(out@ =~= before.insert(j as int, x));
            vstd::seq_lib::to_multiset_insert(before, j as int, x);
            assert(v@.take(i + 1) =~= v@.take(i as int).push(v@[i as int]));
            assert(x == v@[i as int]);
            vstd::seq_lib::to_multiset_build(v@.take(i as int), x);
        }
        i = i + 1;
    }
    proof {
        assert(v@.take(v@.len() as int) =~= v@);
    }
    out
}

} // verus!
