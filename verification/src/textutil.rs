//! Character-level helpers shared by the command builders: decimal rendering of
//! integers, fixed three-decimal rendering of millisecond amounts, joining,
//! quoting for filter arguments, path joining, trimming and integer parsing.
use vstd::prelude::*;

verus! {

// ─── Trusted items ──────────────────────────────────────────────────────────

/// `String::push` of std: appends one character to the end of the string.
/// Its documentation promises exactly that, which is what the contract claims.
#[verifier::external_body]
pub(crate) fn push_char(s: &mut String, c: char)
    ensures
        final(s)@ == old(s)@.push(c),
{
    s.push(c);
}

/// What `str::to_lowercase` of std gives back for a string: its Unicode
/// lowercase form, which depends on the string alone (the mapping of a
/// character may depend on its neighbours, as for a final capital sigma).
pub uninterp spec fn lowercase(s: Seq<char>) -> Seq<char>;

/// Whether a character is printable ASCII (space to `~`).
pub open spec fn is_ascii_char(c: char) -> bool {
    32 <= (c as u32) <= 126
}

/// Whether every character of `s` is printable ASCII.
pub open spec fn is_ascii_text(s: Seq<char>) -> bool {
    forall|i: int| 0 <= i < s.len() ==> #[trigger] is_ascii_char(s[i])
}

/// The ASCII lower case of a character: `A` to `Z` become `a` to `z`, every
/// other character stays.
pub open spec fn ascii_lower_char(c: char) -> char {
    if 65 <= (c as u32) <= 90 {
        ((c as u32) + 32) as char
    } else {
        c
    }
}

/// The ASCII lower case of a text, character by character.
pub open spec fn ascii_lower(s: Seq<char>) -> Seq<char> {
    s.map_values(|c: char| ascii_lower_char(c))
}

/// Lower-casing ASCII text twice changes nothing more than once, and the
/// result is ASCII text again.
pub proof fn lemma_ascii_lower_idempotent(s: Seq<char>)
    requires
        is_ascii_text(s),
    ensures
        is_ascii_text(ascii_lower(s)),
        ascii_lower(ascii_lower(s)) == ascii_lower(s),
{
    assert forall|i: int| 0 <= i < s.len() implies #[trigger] is_ascii_char(ascii_lower(s)[i])
        && ascii_lower_char(ascii_lower(s)[i]) == ascii_lower(s)[i] by {
        assert(is_ascii_char(s[i]));
    }
    assert(ascii_lower(ascii_lower(s)) =~= ascii_lower(s));
}

/// A text without upper-case ASCII letters is its own ASCII lower case.
pub proof fn lemma_ascii_lower_keeps(s: Seq<char>)
    requires
        forall|i: int| 0 <= i < s.len() ==> !(65 <= (#[trigger] s[i] as u32) <= 90),
    ensures
        ascii_lower(s) == s,
{
    assert(ascii_lower(s) =~= s);
}

/// Whether a character is an ASCII digit.
pub open spec fn is_digit_char(c: char) -> bool {
    48 <= (c as u32) <= 57
}

proof fn lemma_digit_char(d: int)
    requires
        0 <= d < 10,
    ensures
        is_digit_char(digit_char(d)),
        digit_value(digit_char(d)) == Some(d as nat),
{
}

/// The decimal text of a number is a non-empty run of ASCII digits that reads
/// back as the number.
pub proof fn lemma_decimal_digits(n: nat)
    ensures
        decimal(n).len() >= 1,
        forall|i: int| 0 <= i < decimal(n).len() ==> #[trigger] is_digit_char(decimal(n)[i]),
        all_digits(decimal(n)),
        digits_value(decimal(n)) == n,
    decreases n,
{
    if n < 10 {
        lemma_digit_char(n as int);
        assert(decimal(n).drop_last() =~= Seq::<char>::empty());
        assert(digits_value(decimal(n).drop_last()) == 0);
        assert(decimal(n).last() == digit_char(n as int));
    } else {
        lemma_decimal_digits(n / 10);
        lemma_digit_char((n % 10) as int);
        let s = decimal(n);
        assert(s.drop_last() =~= decimal(n / 10));
        assert(s.last() == digit_char((n % 10) as int));
        assert(digits_value(s) == digits_value(decimal(n / 10)) * 10 + (n % 10));
        assert(n == (n / 10) * 10 + n % 10);
        assert forall|i: int| 0 <= i < s.len() implies #[trigger] is_digit_char(s[i]) by {
            if i < s.len() - 1 {
                assert(s[i] == decimal(n / 10)[i]);
            }
        }
        assert forall|i: int| 0 <= i < s.len() implies (#[trigger] digit_value(s[i])) is Some by {
            if i < s.len() - 1 {
                assert(s[i] == decimal(n / 10)[i]);
                assert(digit_value(decimal(n / 10)[i]) is Some);
            }
        }
    }
}

/// `str::to_lowercase` of std. The contract ties the result to the named
/// mapping `lowercase` of the input, and states what the documentation gives
/// for printable ASCII text: each character is mapped on its own, `A` to `Z`
/// to `a` to `z`, and characters without a lower-case mapping (the other
/// printable ASCII ones) stay. The Unicode tables beyond ASCII are not stated.
#[verifier::external_body]
pub(crate) fn to_lowercase(s: &str) -> (r: String)
    ensures
        r@ == lowercase(s@),
        is_ascii_text(s@) ==> r@ == ascii_lower(s@),
{
    s.to_lowercase()
}

// ─── Basic string operations ────────────────────────────────────────────────

/// A fresh `String` holding the characters of `s`.
pub fn owned(s: &str) -> (r: String)
    ensures
        r@ == s@,
{
    String::from_str(s)
}

/// Character-wise equality of two strings.
pub fn str_eq(a: &str, b: &str) -> (r: bool)
    ensures
        r == (a@ == b@),
{
    let n = a.unicode_len();
    if n != b.unicode_len() {
        return false;
    }
    let mut i: usize = 0;
    while i < n
        invariant
            n == a@.len(),
            n == b@.len(),
            0 <= i <= n,
            forall|j: int| 0 <= j < i ==> a@[j] == b@[j],
        decreases n - i,
    {
        if a.get_char(i) != b.get_char(i) {
            return false;
        }
        i = i + 1;
    }
    assert(a@ =~= b@);
    true
}

/// Appends all characters of `t` to `s`.
pub fn push_str(s: &mut String, t: &str)
    ensures
        final(s)@ == old(s)@ + t@,
{
    s.append(t);
}

/// Whether `c` occurs in `s`.
pub fn contains_char(s: &str, c: char) -> (r: bool)
    ensures
        r == s@.contains(c),
{
    let n = s.unicode_len();
    let mut i: usize = 0;
    while i < n
        invariant
            n == s@.len(),
            0 <= i <= n,
            forall|j: int| 0 <= j < i ==> s@[j] != c,
        decreases n - i,
    {
        if s.get_char(i) == c {
            assert(s@[i as int] == c);
            return true;
        }
        i = i + 1;
    }
    false
}

// ─── Decimal rendering ──────────────────────────────────────────────────────

/// The ASCII digit for `d` (`d` in 0..=9).
pub open spec fn digit_char(d: int) -> char {
    if d == 0 {
        '0'
    } else if d == 1 {
        '1'
    } else if d == 2 {
        '2'
    } else if d == 3 {
        '3'
    } else if d == 4 {
        '4'
    } else if d == 5 {
        '5'
    } else if d == 6 {
        '6'
    } else if d == 7 {
        '7'
    } else if d == 8 {
        '8'
    } else {
        '9'
    }
}

/// The value of an ASCII digit, or `None` for any other character.
pub open spec fn digit_value(c: char) -> Option<nat> {
    if c == '0' {
        Some(0nat)
    } else if c == '1' {
        Some(1nat)
    } else if c == '2' {
        Some(2nat)
    } else if c == '3' {
        Some(3nat)
    } else if c == '4' {
        Some(4nat)
    } else if c == '5' {
        Some(5nat)
    } else if c == '6' {
        Some(6nat)
    } else if c == '7' {
        Some(7nat)
    } else if c == '8' {
        Some(8nat)
    } else if c == '9' {
        Some(9nat)
    } else {
        None
    }
}

/// The shortest base-10 representation of `n`, as `n.to_string()` writes it.
pub open spec fn decimal(n: nat) -> Seq<char>
    decreases n,
{
    if n < 10 {
        seq![digit_char(n as int)]
    } else {
        decimal(n / 10).push(digit_char((n % 10) as int))
    }
}

/// Base-10 representation of a signed integer, with a leading `-` when negative.
pub open spec fn signed_decimal(i: int) -> Seq<char> {
    if i < 0 {
        seq!['-'] + decimal((-i) as nat)
    } else {
        decimal(i as nat)
    }
}

/// A number of milliseconds written as seconds with exactly three decimals,
/// the way `format!("{:.3}", secs)` writes the corresponding seconds value.
pub open spec fn millis_text(ms: int) -> Seq<char> {
    let a: nat = if ms < 0 {
        (-ms) as nat
    } else {
        ms as nat
    };
    let f: nat = a % 1000;
    (if ms < 0 {
        seq!['-']
    } else {
        Seq::<char>::empty()
    }) + decimal(a / 1000) + seq![
        '.',
        digit_char((f / 100) as int),
        digit_char(((f / 10) % 10) as int),
        digit_char((f % 10) as int),
    ]
}

/// The ASCII digit for `d`.
pub fn digit(d: u64) -> (c: char)
    requires
        d < 10,
    ensures
        c == digit_char(d as int),
{
    if d == 0 {
        '0'
    } else if d == 1 {
        '1'
    } else if d == 2 {
        '2'
    } else if d == 3 {
        '3'
    } else if d == 4 {
        '4'
    } else if d == 5 {
        '5'
    } else if d == 6 {
        '6'
    } else if d == 7 {
        '7'
    } else if d == 8 {
        '8'
    } else {
        '9'
    }
}

/// Appends the decimal representation of `n` to `s`.
pub fn push_u64(s: &mut String, n: u64)
    ensures
        final(s)@ == old(s)@ + decimal(n as nat),
    decreases n,
{
    if n < 10 {
        push_char(s, digit(n));
        assert(decimal(n as nat) =~= seq![digit_char(n as int)]);
    } else {
        push_u64(s, n / 10);
        push_char(s, digit(n % 10));
        assert(decimal(n as nat) == decimal((n / 10) as nat).push(digit_char((n % 10) as int)));
    }
}

/// `n.to_string()` for an unsigned integer.
pub fn u64_to_string(n: u64) -> (s: String)
    ensures
        s@ == decimal(n as nat),
{
    let mut s = String::new();
    push_u64(&mut s, n);
    assert(s@ =~= decimal(n as nat));
    s
}

/// Appends the signed decimal representation of `i` to `s`.
pub fn push_i64(s: &mut String, i: i64)
    ensures
        final(s)@ == old(s)@ + signed_decimal(i as int),
{
    if i < 0 {
        push_char(s, '-');
        let a: u64 = (0i128 - (i as i128)) as u64;
        push_u64(s, a);
        assert(final(s)@ =~= old(s)@ + signed_decimal(i as int));
    } else {
        push_u64(s, i as u64);
    }
}

/// `i.to_string()` for a signed integer.
pub fn i64_to_string(i: i64) -> (s: String)
    ensures
        s@ == signed_decimal(i as int),
{
    let mut s = String::new();
    push_i64(&mut s, i);
    assert(s@ =~= signed_decimal(i as int));
    s
}

/// Appends `ms` milliseconds written as seconds with three decimals.
pub fn push_millis(s: &mut String, ms: i64)
    ensures
        final(s)@ == old(s)@ + millis_text(ms as int),
{
    let ghost s0 = s@;
    let a: u64 = if ms < 0 {
        (0i128 - (ms as i128)) as u64
    } else {
        ms as u64
    };
    if ms < 0 {
        push_char(s, '-');
    }
    let ghost s1 = s@;
    push_u64(s, a / 1000);
    let f = a % 1000;
    push_char(s, '.');
    push_char(s, digit(f / 100));
    push_char(s, digit((f / 10) % 10));
    push_char(s, digit(f % 10));
    assert(s@ =~= s0 + millis_text(ms as int));
}

/// `format!("{:.3}", secs)` for the seconds value of `ms` milliseconds.
pub fn millis_to_string(ms: i64) -> (s: String)
    ensures
        s@ == millis_text(ms as int),
{
    let mut s = String::new();
    push_millis(&mut s, ms);
    assert(s@ =~= millis_text(ms as int));
    s
}

/// Appends the decimal representation of `n` to `s`.
pub fn push_u128(s: &mut String, n: u128)
    ensures
        final(s)@ == old(s)@ + decimal(n as nat),
    decreases n,
{
    if n < 10 {
        push_char(s, digit(n as u64));
        assert(decimal(n as nat) =~= seq![digit_char(n as int)]);
    } else {
        push_u128(s, n / 10);
        push_char(s, digit((n % 10) as u64));
        assert(decimal(n as nat) == decimal((n / 10) as nat).push(digit_char((n % 10) as int)));
    }
}

/// Appends `ms` milliseconds written as seconds with three decimals, for an
/// amount held in 128 bits.
pub fn push_millis_wide(s: &mut String, ms: i128)
    requires
        -0x1000_0000_0000_0000_0000_0000_0000_0000 <= ms <= 0x1000_0000_0000_0000_0000_0000_0000_0000,
    ensures
        final(s)@ == old(s)@ + millis_text(ms as int),
{
    let ghost s0 = s@;
    let a: u128 = if ms < 0 {
        (0 - ms) as u128
    } else {
        ms as u128
    };
    if ms < 0 {
        push_char(s, '-');
    }
    push_u128(s, a / 1000);
    let f = (a % 1000) as u64;
    push_char(s, '.');
    push_char(s, digit(f / 100));
    push_char(s, digit((f / 10) % 10));
    push_char(s, digit(f % 10));
    assert(s@ =~= s0 + millis_text(ms as int));
}

/// Appends the signed decimal representation of `i`, held in 128 bits.
pub fn push_i128(s: &mut String, i: i128)
    requires
        -0x1_0000_0000_0000_0000_0000_0000 <= i,
    ensures
        final(s)@ == old(s)@ + signed_decimal(i as int),
{
    if i < 0 {
        push_char(s, '-');
        push_u128(s, (0 - i) as u128);
        assert(final(s)@ =~= old(s)@ + signed_decimal(i as int));
    } else {
        push_u128(s, i as u128);
    }
}

// ─── Joining ────────────────────────────────────────────────────────────────

/// The parts written one after the other with `sep` between consecutive parts,
/// as `slice.join(sep)` does.
pub open spec fn joined(parts: Seq<Seq<char>>, sep: Seq<char>) -> Seq<char>
    decreases parts.len(),
{
    if parts.len() == 0 {
        Seq::empty()
    } else if parts.len() == 1 {
        parts[0]
    } else {
        joined(parts.drop_last(), sep) + sep + parts.last()
    }
}

/// Whether `t` occurs in `s` as a contiguous run of characters.
pub open spec fn has_infix(s: Seq<char>, t: Seq<char>) -> bool {
    exists|i: int| 0 <= i && i + t.len() <= s.len() && #[trigger] s.subrange(i, i + t.len()) == t
}

/// A string holds each of its middle parts.
pub proof fn lemma_infix_of_concat(a: Seq<char>, t: Seq<char>, b: Seq<char>)
    ensures
        has_infix(a + t + b, t),
{
    let s = a + t + b;
    assert(s.subrange(a.len() as int, (a.len() + t.len()) as int) =~= t);
}

/// What occurs in a part of a string occurs in the string.
pub proof fn lemma_infix_trans(s: Seq<char>, m: Seq<char>, t: Seq<char>)
    requires
        has_infix(s, m),
        has_infix(m, t),
    ensures
        has_infix(s, t),
{
    let i = choose|i: int| 0 <= i && i + m.len() <= s.len() && #[trigger] s.subrange(i, i + m.len()) == m;
    let j = choose|j: int| 0 <= j && j + t.len() <= m.len() && #[trigger] m.subrange(j, j + t.len()) == t;
    assert(s.subrange(i + j, i + j + t.len()) =~= m.subrange(j, j + t.len()));
}

/// Every part occurs in the parts joined.
pub proof fn lemma_joined_holds_parts(parts: Seq<Seq<char>>, sep: Seq<char>, k: int)
    requires
        0 <= k < parts.len(),
    ensures
        has_infix(joined(parts, sep), parts[k]),
    decreases parts.len(),
{
    if parts.len() == 1 {
        lemma_infix_of_concat(Seq::empty(), parts[0], Seq::empty());
        assert(Seq::<char>::empty() + parts[0] + Seq::<char>::empty() =~= parts[0]);
    } else if k == parts.len() - 1 {
        lemma_infix_of_concat(joined(parts.drop_last(), sep) + sep, parts.last(), Seq::empty());
        assert(joined(parts.drop_last(), sep) + sep + parts.last() + Seq::<char>::empty()
            =~= joined(parts, sep));
    } else {
        lemma_joined_holds_parts(parts.drop_last(), sep, k);
        assert(parts.drop_last()[k] == parts[k]);
        lemma_infix_of_concat(Seq::empty(), joined(parts.drop_last(), sep), sep + parts.last());
        assert(Seq::<char>::empty() + joined(parts.drop_last(), sep) + (sep + parts.last())
            =~= joined(parts, sep));
        lemma_infix_trans(joined(parts, sep), joined(parts.drop_last(), sep), parts[k]);
    }
}

/// The character sequences of a vector of strings.
pub open spec fn views(v: Seq<String>) -> Seq<Seq<char>> {
    v.map_values(|s: String| s@)
}

/// `parts.join(sep)`.
pub fn join(parts: &Vec<String>, sep: &str) -> (r: String)
    ensures
        r@ == joined(views(parts@), sep@),
{
    let mut r = String::new();
    let ghost vs = views(parts@);
    let mut i: usize = 0;
    while i < parts.len()
        invariant
            vs == views(parts@),
            vs.len() == parts@.len(),
            0 <= i <= parts@.len(),
            r@ == joined(vs.take(i as int), sep@),
        decreases parts.len() - i,
    {
        if i > 0 {
            push_str(&mut r, sep);
        }
        push_str(&mut r, parts[i].as_str());
        assert(vs.take(i + 1).drop_last() =~= vs.take(i as int));
        assert(vs[i as int] == parts@[i as int]@);
        i = i + 1;
    }
    assert(vs.take(parts@.len() as int) =~= vs);
    r
}

// ─── Quoting ────────────────────────────────────────────────────────────────

/// Each single quote replaced by the four characters `'\''`; every other
/// character kept.
pub open spec fn quote_escaped(s: Seq<char>) -> Seq<char>
    decreases s.len(),
{
    if s.len() == 0 {
        Seq::empty()
    } else {
        let rest = quote_escaped(s.drop_last());
        if s.last() == '\'' {
            rest + seq!['\'', '\\', '\'', '\'']
        } else {
            rest.push(s.last())
        }
    }
}

// ─── Paths ──────────────────────────────────────────────────────────────────

/// `Path::new(base).join(seg)` on Unix: an absolute `seg` replaces the base;
/// otherwise `seg` is appended, with a `/` in between unless the base is empty
/// or already ends with `/`.
pub open spec fn path_join(base: Seq<char>, seg: Seq<char>) -> Seq<char> {
    if seg.len() > 0 && seg[0] == '/' {
        seg
    } else if base.len() == 0 || base.last() == '/' {
        base + seg
    } else {
        base + seq!['/'] + seg
    }
}

/// Joins a path segment onto a base path, as `Path::join` does on Unix.
pub fn join_path(base: &str, seg: &str) -> (r: String)
    ensures
        r@ == path_join(base@, seg@),
{
    let bl = base.unicode_len();
    let sl = seg.unicode_len();
    if sl > 0 && seg.get_char(0) == '/' {
        return owned(seg);
    }
    let mut r = owned(base);
    if bl > 0 && base.get_char(bl - 1) != '/' {
        push_char(&mut r, '/');
    }
    push_str(&mut r, seg);
    r
}

/// What `Path::parent` of std gives back for a path: the path without its final
/// component (`""` for a single relative component), or `None` for a root or an
/// empty path. It depends on the path alone.
pub uninterp spec fn path_parent(p: Seq<char>) -> Option<Seq<char>>;

/// `Path::parent` of std, on a path given as text. The contract ties the result
/// to the named function `path_parent`; how std splits components is not stated.
#[verifier::external_body]
pub(crate) fn parent_of(p: &str) -> (r: Option<String>)
    ensures
        match r {
            Some(q) => path_parent(p@) == Some(q@),
            None => path_parent(p@) is None,
        },
{
    match std::path::Path::new(p).parent() {
        Some(q) => Some(q.to_string_lossy().into_owned()),
        None => None,
    }
}

/// What `Path::file_stem` of std gives back for a path: its final component
/// without the last extension, or `None` when there is no final component.
/// It depends on the path alone.
pub uninterp spec fn path_stem(p: Seq<char>) -> Option<Seq<char>>;

/// `Path::file_stem` of std, on a path given as text (a stem of valid text is
/// valid text). The contract ties the result to the named function
/// `path_stem`; how std splits the extension off is not stated.
#[verifier::external_body]
pub(crate) fn file_stem_of(p: &str) -> (r: Option<String>)
    ensures
        match r {
            Some(q) => path_stem(p@) == Some(q@),
            None => path_stem(p@) is None,
        },
{
    match std::path::Path::new(p).file_stem() {
        Some(s) => match s.to_str() {
            Some(t) => Some(t.to_string()),
            None => None,
        },
        None => None,
    }
}

/// The stem of a path, or `fallback` when it has none.
pub open spec fn stem_or(p: Seq<char>, fallback: Seq<char>) -> Seq<char> {
    match path_stem(p) {
        Some(s) => s,
        None => fallback,
    }
}

/// The stem of the path `p`, or `fallback` when it has none.
pub fn stem_or_else(p: &str, fallback: &str) -> (r: String)
    ensures
        r@ == stem_or(p@, fallback@),
{
    match file_stem_of(p) {
        Some(s) => s,
        None => owned(fallback),
    }
}

// ─── Trimming and parsing ───────────────────────────────────────────────────

/// Characters with the Unicode `White_Space` property, the set that
/// `str::trim` removes.
pub open spec fn is_whitespace(c: char) -> bool {
    ||| c == '\t'
    ||| c == '\n'
    ||| c == '\u{0B}'
    ||| c == '\u{0C}'
    ||| c == '\r'
    ||| c == ' '
    ||| c == '\u{85}'
    ||| c == '\u{A0}'
    ||| c == '\u{1680}'
    ||| ('\u{2000}' <= c && c <= '\u{200A}')
    ||| c == '\u{2028}'
    ||| c == '\u{2029}'
    ||| c == '\u{202F}'
    ||| c == '\u{205F}'
    ||| c == '\u{3000}'
}

fn whitespace(c: char) -> (r: bool)
    ensures
        r == is_whitespace(c),
{
    c == '\t' || c == '\n' || c == '\u{0B}' || c == '\u{0C}' || c == '\r' || c == ' ' || c
        == '\u{85}' || c == '\u{A0}' || c == '\u{1680}' || ('\u{2000}' <= c && c <= '\u{200A}')
        || c == '\u{2028}' || c == '\u{2029}' || c == '\u{202F}' || c == '\u{205F}' || c
        == '\u{3000}'
}

/// Index of the first non-whitespace character at or after `i` (or `s.len()`).
pub open spec fn skip_ws_front(s: Seq<char>, i: int) -> int
    decreases s.len() - i,
{
    if i >= s.len() || i < 0 {
        i
    } else if is_whitespace(s[i]) {
        skip_ws_front(s, i + 1)
    } else {
        i
    }
}

/// One past the last non-whitespace character strictly before `j`, not below `lo`.
pub open spec fn skip_ws_back(s: Seq<char>, lo: int, j: int) -> int
    decreases j - lo,
{
    if j <= lo {
        lo
    } else if is_whitespace(s[j - 1]) {
        skip_ws_back(s, lo, j - 1)
    } else {
        j
    }
}

/// `s.trim()`: the string without its leading and trailing whitespace.
pub open spec fn trimmed(s: Seq<char>) -> Seq<char> {
    let lo = skip_ws_front(s, 0);
    s.subrange(lo, skip_ws_back(s, lo, s.len() as int))
}

proof fn lemma_skip_front_bounds(s: Seq<char>, i: int)
    requires
        0 <= i <= s.len(),
    ensures
        i <= skip_ws_front(s, i) <= s.len(),
    decreases s.len() - i,
{
    if i < s.len() && is_whitespace(s[i]) {
        lemma_skip_front_bounds(s, i + 1);
    }
}

proof fn lemma_skip_back_bounds(s: Seq<char>, lo: int, j: int)
    requires
        0 <= lo <= j <= s.len(),
    ensures
        lo <= skip_ws_back(s, lo, j) <= j,
    decreases j - lo,
{
    if j > lo && is_whitespace(s[j - 1]) {
        lemma_skip_back_bounds(s, lo, j - 1);
    }
}

/// `s.trim()`.
pub fn trim(s: &str) -> (r: String)
    ensures
        r@ == trimmed(s@),
{
    let n = s.unicode_len();
    let mut lo: usize = 0;
    while lo < n && whitespace(s.get_char(lo))
        invariant
            n == s@.len(),
            0 <= lo <= n,
            skip_ws_front(s@, 0) == skip_ws_front(s@, lo as int),
        decreases n - lo,
    {
        lo = lo + 1;
    }
    let mut hi: usize = n;
    while hi > lo && whitespace(s.get_char(hi - 1))
        invariant
            n == s@.len(),
            0 <= lo <= hi <= n,
            lo == skip_ws_front(s@, 0),
            skip_ws_back(s@, lo as int, n as int) == skip_ws_back(s@, lo as int, hi as int),
        decreases hi - lo,
    {
        hi = hi - 1;
    }
    let r = owned(s.substring_char(lo, hi));
    r
}

/// All characters are ASCII digits.
pub open spec fn all_digits(s: Seq<char>) -> bool {
    forall|i: int| 0 <= i < s.len() ==> (#[trigger] digit_value(s[i])) is Some
}

/// The number written by a sequence of ASCII digits (most significant first).
pub open spec fn digits_value(s: Seq<char>) -> nat
    decreases s.len(),
{
    if s.len() == 0 {
        0
    } else {
        digits_value(s.drop_last()) * 10 + match digit_value(s.last()) {
            Some(d) => d,
            None => 0,
        }
    }
}

/// What `s.parse::<u32>()` accepts: an optional `+`, then at least one ASCII
/// digit, with a value that fits in `u32`.
pub open spec fn parse_u32_spec(s: Seq<char>) -> Option<u32> {
    let body = if s.len() > 0 && s[0] == '+' {
        s.drop_first()
    } else {
        s
    };
    if body.len() == 0 || !all_digits(body) || digits_value(body) > u32::MAX {
        None
    } else {
        Some(digits_value(body) as u32)
    }
}

proof fn lemma_digits_value_mono(s: Seq<char>, i: int)
    requires
        0 <= i <= s.len(),
    ensures
        digits_value(s.take(i)) <= digits_value(s),
    decreases s.len() - i,
{
    if i < s.len() {
        lemma_digits_value_mono(s, i + 1);
        assert(s.take(i + 1).drop_last() =~= s.take(i));
        assert(digits_value(s.take(i)) <= digits_value(s.take(i + 1))) by (nonlinear_arith)
            requires
                digits_value(s.take(i + 1)) >= digits_value(s.take(i + 1).drop_last()) * 10,
                s.take(i + 1).drop_last() == s.take(i),
        ;
    } else {
        assert(s.take(i) =~= s);
    }
}

fn digit_of(c: char) -> (r: Option<u32>)
    ensures
        r matches Some(d) ==> digit_value(c) == Some(d as nat),
        r is None ==> digit_value(c) is None,
{
    if c == '0' {
        Some(0)
    } else if c == '1' {
        Some(1)
    } else if c == '2' {
        Some(2)
    } else if c == '3' {
        Some(3)
    } else if c == '4' {
        Some(4)
    } else if c == '5' {
        Some(5)
    } else if c == '6' {
        Some(6)
    } else if c == '7' {
        Some(7)
    } else if c == '8' {
        Some(8)
    } else if c == '9' {
        Some(9)
    } else {
        None
    }
}

/// `s.parse::<u32>().ok()`.
pub fn parse_u32(s: &str) -> (r: Option<u32>)
    ensures
        r == parse_u32_spec(s@),
{
    let n = s.unicode_len();
    let start: usize = if n > 0 && s.get_char(0) == '+' {
        1
    } else {
        0
    };
    let ghost body = if s@.len() > 0 && s@[0] == '+' {
        s@.drop_first()
    } else {
        s@
    };
    assert(body =~= s@.subrange(start as int, n as int));
    if start == n {
        return None;
    }
    let mut acc: u64 = 0;
    let mut i: usize = start;
    while i < n
        invariant
            n == s@.len(),
            start <= i <= n,
            start < n,
            body == s@.subrange(start as int, n as int),
            body == (if s@.len() > 0 && s@[0] == '+' {
                s@.drop_first()
            } else {
                s@
            }),
            acc as nat == digits_value(body.take(i - start)),
            acc <= u32::MAX,
            all_digits(body.take(i - start)),
        decreases n - i,
    {
        let c = s.get_char(i);
        let ghost k: int = i - start;
        assert(body[k] == c);
        match digit_of(c) {
            None => {
                assert(digit_value(body[k]) is None);
                assert(!all_digits(body));
                assert(parse_u32_spec(s@) is None);
                return None;
            },
            Some(d) => {
                assert(body.take(k + 1).drop_last() =~= body.take(k));
                assert(body.take(k + 1).last() == c);
                let next: u64 = acc * 10 + d as u64;
                assert(next as nat == digits_value(body.take(k + 1)));
                assert(all_digits(body.take(k + 1))) by {
                    assert forall|j: int| 0 <= j < body.take(k + 1).len() implies (#[trigger] digit_value(
                        body.take(k + 1)[j],
                    )) is Some by {
                        if j < k {
                            assert(body.take(k + 1)[j] == body.take(k)[j]);
                        }
                    }
                }
                if next > 0xffff_ffffu64 {
                    proof {
                        lemma_digits_value_mono(body, k + 1);
                    }
                    assert(digits_value(body) > u32::MAX);
                    assert(parse_u32_spec(s@) is None);
                    return None;
                }
                acc = next;
            },
        }
        i = i + 1;
    }
    assert(body.take(n - start) =~= body);
    Some(acc as u32)
}

} // verus!
