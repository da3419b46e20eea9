//! Small verified string operations shared by the other modules.

use vstd::prelude::*;

verus! {

/// The decimal digit character for `d < 10`.
pub open spec fn digit_char(d: nat) -> char {
    "0123456789"@[d as int]
}

/// The decimal spelling of a natural number, most significant digit first.
pub open spec fn decimal(n: nat) -> Seq<char>
    decreases n,
{
    if n < 10 {
        seq![digit_char(n)]
    } else {
        decimal(n / 10).push(digit_char(n % 10))
    }
}

/// Character-wise equality of two strings.
pub fn same_text(a: &str, b: &str) -> (r: bool)
    ensures
        r == (a@ == b@),
{
    let n = a.unicode_len();
    if n != b.unicode_len() {
        return false;
    }
    let mut i: usize = 0;
    while i < n
        invariant
            n == a@.len(),
            n == b@.len(),
            i <= n,
            forall|j: int| 0 <= j < i ==> a@[j] == b@[j],
        decreases n - i,
    {
        if a.get_char(i) != b.get_char(i) {
            return false;
        }
        i += 1;
    }
    assert(a@ =~= b@);
    true
}

/// The decimal text of a natural number.
pub fn decimal_text(n: u32) -> (r: String)
    ensures
        r@ == decimal(n as nat),
    decreases n,
{
    let digits = "0123456789";
    proof {
        reveal_strlit("0123456789");
    }
    let d: usize = (n % 10) as usize;
    let last = digits.substring_char(d, d + 1);
    assert(last@ =~= seq![digit_char(d as nat)]);
    if n < 10 {
        String::from_str(last)
    } else {
        let mut r = decimal_text(n / 10);
        r.append(last);
        r
    }
}

/// Whether an operating-system name denotes Windows.
pub open spec fn is_windows(os: Seq<char>) -> bool {
    os == "windows"@
}

/// The path separator written on a platform.
pub open spec fn sep_of(windows: bool) -> Seq<char> {
    if windows {
        "\\"@
    } else {
        "/"@
    }
}

/// Whether a path ends with a separator of the platform (on Windows both
/// `/` and `\` separate components).
pub open spec fn ends_with_sep(s: Seq<char>, windows: bool) -> bool {
    s.len() > 0 && (s.last() == '/' || (windows && s.last() == '\\'))
}

/// `part` appended to `base` as a further path component.
pub open spec fn joined(base: Seq<char>, part: Seq<char>, windows: bool) -> Seq<char> {
    if base.len() == 0 {
        part
    } else if ends_with_sep(base, windows) {
        base + part
    } else {
        base + sep_of(windows) + part
    }
}

/// Whether `os` names Windows.
pub fn windows_os(os: &str) -> (r: bool)
    ensures
        r == is_windows(os@),
{
    same_text(os, "windows")
}

/// Appends `part` to `base` as a further path component.
pub fn join_path(base: &str, part: &str, windows: bool) -> (r: String)
    ensures
        r@ == joined(base@, part@, windows),
{
    let n = base.unicode_len();
    if n == 0 {
        return String::from_str(part);
    }
    let last = base.get_char(n - 1);
    let mut r = String::from_str(base);
    if !(last == '/' || (windows && last == '\\')) {
        if windows {
            r.append("\\");
        } else {
            r.append("/");
        }
    }
    r.append(part);
    r
}

/// Whether `s` begins with `p`.
pub open spec fn has_prefix(s: Seq<char>, p: Seq<char>) -> bool {
    p.len() <= s.len() && s.take(p.len() as int) == p
}

/// Whether `s` begins with `p`.
pub fn starts_with_text(s: &str, p: &str) -> (r: bool)
    ensures
        r == has_prefix(s@, p@),
{
    let n = p.unicode_len();
    if n > s.unicode_len() {
        return false;
    }
    let mut i: usize = 0;
    while i < n
        invariant
            n == p@.len(),
            n <= s@.len(),
            i <= n,
            forall|j: int| 0 <= j < i ==> s@[j] == p@[j],
        decreases n - i,
    {
        if s.get_char(i) != p.get_char(i) {
            assert(s@.take(n as int)[i as int] != p@[i as int]);
            return false;
        }
        i += 1;
    }
    assert(s@.take(n as int) =~= p@);
    true
}

/// Whether `p` occurs in `s`.
pub open spec fn has_infix(s: Seq<char>, p: Seq<char>) -> bool {
    exists|i: int| 0 <= i <= s.len() - p.len() && #[trigger] s.subrange(i, i + p.len()) == p
}

/// Whether `p` occurs in `s`.
pub fn contains_text(s: &str, p: &str) -> (r: bool)
    ensures
        r == has_infix(s@, p@),
{
    let n = s.unicode_len();
    let m = p.unicode_len();
    if m > n {
        return false;
    }
    let last = n - m;
    let mut i: usize = 0;
    loop
        invariant
            n == s@.len(),
            m == p@.len(),
            last == n - m,
            i <= last,
            forall|j: int| 0 <= j < i ==> #[trigger] s@.subrange(j, j + m) != p@,
        decreases last - i,
    {
        let rest = s.substring_char(i, n);
        assert(rest@.take(m as int) =~= s@.subrange(i as int, i + m));
        if starts_with_text(rest, p) {
            return true;
        }
        if i == last {
            return false;
        }
        i += 1;
    }
}

/// A path with every `/` written as `\` on Windows; unchanged elsewhere.
pub open spec fn normalized(s: Seq<char>, windows: bool) -> Seq<char> {
    if windows {
        s.map_values(|c: char| if c == '/' { '\\' } else { c })
    } else {
        s
    }
}

/// Writes the separators of a path as the platform does.
pub fn normalize_path_separator(path: &str, windows: bool) -> (r: String)
    ensures
        r@ == normalized(path@, windows),
{
    if !windows {
        return String::from_str(path);
    }
    let n = path.unicode_len();
    let mut r = String::new();
    let mut i: usize = 0;
    while i < n
        invariant
            n == path@.len(),
            i <= n,
            r@ == normalized(path@, true).take(i as int),
        decreases n - i,
    {
        let piece = path.substring_char(i, i + 1);
        let c = path.get_char(i);
        let ghost prev = r@;
        assert(piece@ =~= seq![c]);
        proof {
            reveal_strlit("\\");
        }
        assert("\\"@ =~= seq!['\\']);
        if c == '/' {
            r.append("\\");
        } else {
            r.append(piece);
        }
        assert(normalized(path@, true).take(i as int + 1) =~= prev.push(
            if c == '/' { '\\' } else { c },
        ));
        assert(normalized(path@, true).take(i as int + 1) =~= r@);
        i += 1;
    }
    assert(normalized(path@, true).take(n as int) =~= normalized(path@, true));
    r
}

/// Whether a character separates path components, on any platform.
pub open spec fn is_any_sep(c: char) -> bool {
    c == '/' || c == '\\'
}

/// A path without its trailing separators.
pub open spec fn trimmed_seps(s: Seq<char>) -> Seq<char>
    decreases s.len(),
{
    if s.len() > 0 && is_any_sep(s.last()) {
        trimmed_seps(s.drop_last())
    } else {
        s
    }
}

/// Removes every trailing `/` and `\`.
pub fn trim_trailing_separators(s: &str) -> (r: String)
    ensures
        r@ == trimmed_seps(s@),
{
    let mut k = s.unicode_len();
    assert(s@.take(k as int) =~= s@);
    while k > 0 && (s.get_char(k - 1) == '/' || s.get_char(k - 1) == '\\')
        invariant
            k <= s@.len(),
            trimmed_seps(s@) == trimmed_seps(s@.take(k as int)),
        decreases k,
    {
        assert(s@.take(k as int).drop_last() =~= s@.take(k as int - 1));
        k -= 1;
    }
    let r = s.substring_char(0, k);
    assert(r@ =~= s@.take(k as int));
    String::from_str(r)
}

/// A text with every trailing repetition of a non-empty `p` removed.
pub open spec fn stripped_suffix(s: Seq<char>, p: Seq<char>) -> Seq<char>
    decreases s.len(),
{
    if p.len() > 0 && p.len() <= s.len() && s.subrange(s.len() - p.len(), s.len() as int) == p {
        stripped_suffix(s.take(s.len() - p.len()), p)
    } else {
        s
    }
}

/// Removes every trailing repetition of a non-empty `p`.
pub fn strip_suffix_all(s: &str, p: &str) -> (r: String)
    ensures
        r@ == stripped_suffix(s@, p@),
{
    let m = p.unicode_len();
    let mut k = s.unicode_len();
    assert(s@.take(k as int) =~= s@);
    while m > 0 && m <= k && same_text(s.substring_char(k - m, k), p)
        invariant
            m == p@.len(),
            k <= s@.len(),
            stripped_suffix(s@, p@) == stripped_suffix(s@.take(k as int), p@),
        decreases k,
    {
        assert(s@.take(k as int).subrange(k - m, k as int) =~= s@.subrange(k - m, k as int));
        assert(s@.take(k as int).take(k - m) =~= s@.take(k - m));
        k -= m;
    }
    if m > 0 && m <= k {
        assert(s@.take(k as int).subrange(k - m, k as int) =~= s@.subrange(k - m, k as int));
    }
    let r = s.substring_char(0, k);
    assert(r@ =~= s@.take(k as int));
    String::from_str(r)
}

/// Whether a character separates path components on a platform.
pub open spec fn is_sep(c: char, windows: bool) -> bool {
    c == '/' || (windows && c == '\\')
}

/// The last component of a path: what follows its last separator.
pub open spec fn file_name_of(s: Seq<char>, windows: bool) -> Seq<char>
    decreases s.len(),
{
    if s.len() == 0 || is_sep(s.last(), windows) {
        seq![]
    } else {
        file_name_of(s.drop_last(), windows).push(s.last())
    }
}

proof fn lemma_file_name_split(s: Seq<char>, k: int, windows: bool)
    requires
        0 <= k <= s.len(),
        forall|j: int| k <= j < s.len() ==> !is_sep(#[trigger] s[j], windows),
    ensures
        file_name_of(s, windows) == file_name_of(s.take(k), windows) + s.subrange(k, s.len() as int),
    decreases s.len() - k,
{
    if k < s.len() {
        lemma_file_name_split(s, k + 1, windows);
        let t = s.take(k + 1);
        assert(t.drop_last() =~= s.take(k));
        assert(file_name_of(t, windows) == file_name_of(s.take(k), windows).push(s[k]));
        assert(s.subrange(k, s.len() as int) =~= seq![s[k]] + s.subrange(k + 1, s.len() as int));
        assert(file_name_of(s.take(k), windows).push(s[k]) + s.subrange(k + 1, s.len() as int)
            =~= file_name_of(s.take(k), windows) + s.subrange(k, s.len() as int));
    } else {
        assert(s.take(k) =~= s);
        assert(s.subrange(k, s.len() as int) =~= seq![]);
        assert(file_name_of(s, windows) + seq![] =~= file_name_of(s, windows));
    }
}

/// The last component of a path.
pub fn file_name(path: &str, windows: bool) -> (r: String)
    ensures
        r@ == file_name_of(path@, windows),
{
    let n = path.unicode_len();
    let mut k = n;
    while k > 0 && !(path.get_char(k - 1) == '/' || (windows && path.get_char(k - 1) == '\\'))
        invariant
            n == path@.len(),
            k <= n,
            forall|j: int| k <= j < n ==> !is_sep(#[trigger] path@[j], windows),
        decreases k,
    {
        k -= 1;
    }
    proof {
        lemma_file_name_split(path@, k as int, windows);
        if k > 0 {
            assert(path@.take(k as int).last() == path@[k - 1]);
        } else {
            assert(path@.take(0) =~= seq![]);
        }
        assert(file_name_of(path@.take(k as int), windows) =~= seq![]);
    }
    let r = path.substring_char(k, n);
    assert(r@ =~= seq![] + path@.subrange(k as int, n as int));
    String::from_str(r)
}

} // verus!
