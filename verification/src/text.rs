//! Character-level string helpers shared by the naming and option rules.
use vstd::prelude::*;
use vstd::string::StringExecFns;

verus! {

/// What `str::to_lowercase` returns for a string: Rust's Unicode lowercase mapping.
pub uninterp spec fn lowercase(s: Seq<char>) -> Seq<char>;

/// Lowercases `s` with `str::to_lowercase` from the standard library.
/// Trusted: the result is `lowercase(s@)`; the mapping itself is not restated here.
#[verifier::external_body]
pub(crate) fn to_lower(s: &str) -> (r: String)
    ensures
        r@ == lowercase(s@),
{
    s.to_lowercase()
}

/// Appends one character with `String::push` from the standard library.
/// Trusted: the string afterwards is the old one with `c` at its end.
#[verifier::external_body]
pub(crate) fn push_char(s: &mut String, c: char)
    ensures
        final(s)@ == old(s)@.push(c),
{
    s.push(c);
}

/// Whether `c` has the Unicode `White_Space` property (what `str::trim` removes).
pub open spec fn is_white_space(c: char) -> bool {
    let u = c as u32;
    ||| 0x09 <= u <= 0x0D
    ||| u == 0x20
    ||| u == 0x85
    ||| u == 0xA0
    ||| u == 0x1680
    ||| 0x2000 <= u <= 0x200A
    ||| u == 0x2028
    ||| u == 0x2029
    ||| u == 0x202F
    ||| u == 0x205F
    ||| u == 0x3000
}

/// `s` without its leading white space.
pub open spec fn trim_start_ws(s: Seq<char>) -> Seq<char>
    decreases s.len(),
{
    if s.len() > 0 && is_white_space(s[0]) {
        trim_start_ws(s.drop_first())
    } else {
        s
    }
}

/// `s` without its trailing white space.
pub open spec fn trim_end_ws(s: Seq<char>) -> Seq<char>
    decreases s.len(),
{
    if s.len() > 0 && is_white_space(s.last()) {
        trim_end_ws(s.drop_last())
    } else {
        s
    }
}

/// `s` without leading and trailing white space (what `str::trim` returns).
pub open spec fn trimmed(s: Seq<char>) -> Seq<char> {
    trim_end_ws(trim_start_ws(s))
}

/// Whether `c` has the Unicode `White_Space` property.
pub fn is_white(c: char) -> (r: bool)
    ensures
        r == is_white_space(c),
{
    let u = c as u32;
    (0x09 <= u && u <= 0x0D) || u == 0x20 || u == 0x85 || u == 0xA0 || u == 0x1680 || (0x2000 <= u
        && u <= 0x200A) || u == 0x2028 || u == 0x2029 || u == 0x202F || u == 0x205F || u == 0x3000
}

/// Copies the characters of a string slice into a vector.
pub fn chars_of(s: &str) -> (r: Vec<char>)
    ensures
        r@ == s@,
{
    let mut out: Vec<char> = Vec::new();
    for c in it: s.chars()
        invariant
            out@ == it.seq().take(it.index() as int),
            it.seq() == s@,
    {
        out.push(c);
        assert(it.seq().take(it.index() + 1) =~= out@);
    }
    assert(s@.take(s@.len() as int) =~= s@);
    out
}

/// `s` without leading and trailing white space.
pub fn trim_space(s: &str) -> (r: String)
    ensures
        r@ == trimmed(s@),
{
    let v = chars_of(s);
    let n = v.len();
    let mut i: usize = 0;
    assert(s@.skip(0) =~= s@);
    while i < n && is_white(v[i])
        invariant
            i <= n,
            n == v@.len(),
            v@ == s@,
            trim_start_ws(s@) == trim_start_ws(s@.skip(i as int)),
        decreases n - i,
    {
        assert(s@.skip(i as int).drop_first() =~= s@.skip(i + 1));
        i += 1;
    }
    assert(trim_start_ws(s@) == s@.subrange(i as int, n as int)) by {
        assert(s@.skip(i as int) =~= s@.subrange(i as int, n as int));
    }
    let mut j: usize = n;
    while j > i && is_white(v[j - 1])
        invariant
            i <= j <= n,
            n == v@.len(),
            v@ == s@,
            trim_end_ws(s@.subrange(i as int, n as int)) == trim_end_ws(
                s@.subrange(i as int, j as int),
            ),
        decreases j,
    {
        assert(s@.subrange(i as int, j as int).drop_last() =~= s@.subrange(i as int, j - 1));
        j -= 1;
    }
    let mut r = String::new();
    let mut k: usize = i;
    while k < j
        invariant
            i <= k <= j <= n,
            n == v@.len(),
            v@ == s@,
            r@ == s@.subrange(i as int, k as int),
        decreases j - k,
    {
        push_char(&mut r, v[k]);
        assert(r@ =~= s@.subrange(i as int, k + 1));
        k += 1;
    }
    r
}

/// Character-wise equality of two string slices.
pub fn str_eq(a: &str, b: &str) -> (r: bool)
    ensures
        r == (a@ == b@),
{
    let x = String::from_str(a);
    let y = String::from_str(b);
    x == y
}

/// The string made of `a` followed by `b`.
pub fn join2(a: &str, b: &str) -> (r: String)
    ensures
        r@ == a@ + b@,
{
    String::from_str(a).concat(b)
}

/// A copy of a string slice as an owned string.
pub fn owned(s: &str) -> (r: String)
    ensures
        r@ == s@,
{
    String::from_str(s)
}

/// The characters of `s` after dropping every leading `.`
/// (what `trim_start_matches('.')` leaves).
pub open spec fn strip_leading_dots(s: Seq<char>) -> Seq<char>
    decreases s.len(),
{
    if s.len() > 0 && s[0] == '.' {
        strip_leading_dots(s.drop_first())
    } else {
        s
    }
}

proof fn lemma_strip_skip(s: Seq<char>, i: int)
    requires
        0 <= i < s.len(),
        s[i] == '.',
    ensures
        strip_leading_dots(s.skip(i)) == strip_leading_dots(s.skip(i + 1)),
{
    assert(s.skip(i).drop_first() =~= s.skip(i + 1));
}

/// Drops every leading `.` of `s`.
pub fn without_leading_dots(s: &str) -> (r: String)
    ensures
        r@ == strip_leading_dots(s@),
{
    let mut r = String::new();
    let mut leading = true;
    let ghost mut skipped: int = 0;
    assert(s@.skip(0) =~= s@);
    for c in it: s.chars()
        invariant
            it.seq() == s@,
            0 <= skipped <= it.index(),
            leading ==> skipped == it.index() && r@ == Seq::<char>::empty(),
            strip_leading_dots(s@) == strip_leading_dots(s@.skip(skipped)),
            !leading ==> skipped < s@.len() && s@[skipped] != '.',
            !leading ==> r@ == s@.subrange(skipped, it.index() as int),
    {
        let ghost i = it.index() as int;
        if leading && c == '.' {
            proof {
                lemma_strip_skip(s@, i);
                skipped = i + 1;
            }
        } else {
            leading = false;
            push_char(&mut r, c);
            assert(r@ =~= s@.subrange(skipped, i + 1));
        }
    }
    proof {
        if leading {
            assert(s@.skip(skipped) =~= Seq::<char>::empty());
        } else {
            assert(s@.subrange(skipped, s@.len() as int) =~= s@.skip(skipped));
        }
    }
    r
}

/// `c`, with a space or a hyphen turned into an underscore.
pub open spec fn underscore_char(c: char) -> char {
    if c == ' ' || c == '-' {
        '_'
    } else {
        c
    }
}

/// The characters of `s` with every space and hyphen turned into an underscore.
pub open spec fn underscored(s: Seq<char>) -> Seq<char> {
    s.map_values(|c: char| underscore_char(c))
}

/// Turns every space and every hyphen of `s` into an underscore
/// (what `.replace(' ', "_").replace('-', "_")` does).
pub fn underscore_separators(s: &str) -> (r: String)
    ensures
        r@ == underscored(s@),
{
    let mut r = String::new();
    for c in it: s.chars()
        invariant
            it.seq() == s@,
            r@ == underscored(s@.take(it.index() as int)),
    {
        let ghost i = it.index() as int;
        let d = if c == ' ' || c == '-' {
            '_'
        } else {
            c
        };
        push_char(&mut r, d);
        assert(underscored(s@.take(i + 1)) =~= underscored(s@.take(i)).push(d));
    }
    assert(s@.take(s@.len() as int) =~= s@);
    r
}

/// The decimal digit character for `d < 10`.
pub open spec fn digit_char(d: nat) -> char {
    (d + 48) as char
}

/// The decimal representation of `n`, without leading zeros.
pub open spec fn decimal(n: nat) -> Seq<char>
    decreases n,
{
    if n < 10 {
        seq![digit_char(n)]
    } else {
        decimal(n / 10).push(digit_char(n % 10))
    }
}

/// The decimal representation of `n`.
pub fn decimal_string(n: u64) -> (r: String)
    ensures
        r@ == decimal(n as nat),
    decreases n,
{
    let d: u8 = (n % 10) as u8;
    let c = (d + 48) as char;
    if n < 10 {
        let mut r = String::new();
        push_char(&mut r, c);
        assert(r@ =~= seq![digit_char(n as nat)]);
        r
    } else {
        let mut r = decimal_string(n / 10);
        push_char(&mut r, c);
        r
    }
}

/// Dropping leading dots removes exactly the run of `.` at the start: what is left is the rest
/// of the string, and it does not start with `.`.
pub proof fn lemma_strip_leading_dots(s: Seq<char>)
    ensures
        ({
            let t = strip_leading_dots(s);
            let k = s.len() - t.len();
            &&& 0 <= k <= s.len()
            &&& t == s.skip(k)
            &&& forall|j: int| 0 <= j < k ==> s[j] == '.'
            &&& t.len() > 0 ==> t[0] != '.'
        }),
    decreases s.len(),
{
    if s.len() > 0 && s[0] == '.' {
        let r = s.drop_first();
        lemma_strip_leading_dots(r);
        let t = strip_leading_dots(s);
        let k = s.len() - t.len();
        assert(t == r.skip(r.len() - t.len()));
        assert(r.skip(r.len() - t.len()) =~= s.skip(k));
        assert forall|j: int| 0 <= j < k implies s[j] == '.' by {
            if j > 0 {
                assert(s[j] == r[j - 1]);
            }
        }
    } else {
        assert(s.skip(0) =~= s);
    }
}

proof fn lemma_trim_start(s: Seq<char>)
    ensures
        ({
            let t = trim_start_ws(s);
            let k = s.len() - t.len();
            &&& 0 <= k <= s.len()
            &&& t == s.skip(k)
            &&& forall|j: int| 0 <= j < k ==> is_white_space(s[j])
            &&& t.len() > 0 ==> !is_white_space(t[0])
        }),
    decreases s.len(),
{
    if s.len() > 0 && is_white_space(s[0]) {
        let r = s.drop_first();
        lemma_trim_start(r);
        let t = trim_start_ws(s);
        let k = s.len() - t.len();
        assert(r.skip(r.len() - t.len()) =~= s.skip(k));
        assert forall|j: int| 0 <= j < k implies is_white_space(s[j]) by {
            if j > 0 {
                assert(s[j] == r[j - 1]);
            }
        }
    } else {
        assert(s.skip(0) =~= s);
    }
}

proof fn lemma_trim_end(s: Seq<char>)
    ensures
        ({
            let t = trim_end_ws(s);
            &&& t.len() <= s.len()
            &&& t == s.take(t.len() as int)
            &&& forall|j: int| t.len() <= j < s.len() ==> is_white_space(s[j])
            &&& t.len() > 0 ==> !is_white_space(t.last())
        }),
    decreases s.len(),
{
    if s.len() > 0 && is_white_space(s.last()) {
        let r = s.drop_last();
        lemma_trim_end(r);
        let t = trim_end_ws(s);
        assert(r.take(t.len() as int) =~= s.take(t.len() as int));
        assert forall|j: int| t.len() <= j < s.len() implies is_white_space(s[j]) by {
            if j < s.len() - 1 {
                assert(s[j] == r[j]);
            }
        }
    } else {
        assert(s.take(s.len() as int) =~= s);
    }
}

/// Trimming keeps one contiguous piece of the string: everything before it and after it is
/// white space, and the piece neither starts nor ends with white space.
pub proof fn lemma_trimmed(s: Seq<char>)
    ensures
        ({
            let t = trimmed(s);
            exists|i: int, j: int|
                {
                    &&& 0 <= i <= j <= s.len()
                    &&& t == s.subrange(i, j)
                    &&& forall|k: int| 0 <= k < i ==> is_white_space(#[trigger] s[k])
                    &&& forall|k: int| j <= k < s.len() ==> is_white_space(#[trigger] s[k])
                }
        }),
        trimmed(s).len() > 0 ==> !is_white_space(trimmed(s)[0]) && !is_white_space(
            trimmed(s).last(),
        ),
{
    lemma_trim_start(s);
    let a = trim_start_ws(s);
    let i = s.len() - a.len();
    lemma_trim_end(a);
    let t = trim_end_ws(a);
    let j = i + t.len();
    assert(t =~= s.subrange(i, j));
    assert forall|k: int| j <= k < s.len() implies is_white_space(#[trigger] s[k]) by {
        assert(s[k] == a[k - i]);
    }
    if t.len() > 0 {
        lemma_trim_start(s);
        assert(t[0] == a[0]);
    }
}

/// The number that a string of decimal digits stands for.
pub open spec fn digits_value(s: Seq<char>) -> int
    decreases s.len(),
{
    if s.len() == 0 {
        0
    } else {
        digits_value(s.drop_last()) * 10 + (s.last() as int - 48)
    }
}

/// The decimal representation of `n` is made of the digits `0` to `9`, stands for `n`, and has
/// no leading zero (but for `n == 0` itself, which is `0`).
pub proof fn lemma_decimal(n: nat)
    ensures
        decimal(n).len() > 0,
        forall|i: int| 0 <= i < decimal(n).len() ==> '0' <= #[trigger] decimal(n)[i] <= '9',
        digits_value(decimal(n)) == n,
        decimal(n)[0] == '0' <==> n == 0,
    decreases n,
{
    if n >= 10 {
        lemma_decimal(n / 10);
        let d = decimal(n);
        assert(d.drop_last() =~= decimal(n / 10));
        assert forall|i: int| 0 <= i < d.len() implies '0' <= #[trigger] d[i] <= '9' by {
            if i < d.len() - 1 {
                assert(d[i] == decimal(n / 10)[i]);
            }
        }
        assert(d[0] == decimal(n / 10)[0]);
        assert(d.last() == digit_char(n % 10));
        assert(digit_char(n % 10) as int == n % 10 + 48);
        assert(digits_value(d) == digits_value(decimal(n / 10)) * 10 + (n % 10));
        assert(digits_value(decimal(n / 10)) == n / 10);
        assert(n == (n / 10) * 10 + n % 10);
    } else {
        assert(digit_char(n) as int == n + 48);
        assert(decimal(n).drop_last() =~= Seq::<char>::empty());
        assert(digits_value(Seq::<char>::empty()) == 0);
    }
}

/// Trimming twice is trimming once.
pub proof fn lemma_trim_twice(s: Seq<char>)
    ensures
        trimmed(trimmed(s)) == trimmed(s),
{
    lemma_trimmed(s);
    let t = trimmed(s);
    assert(trim_start_ws(t) == t);
    assert(trim_end_ws(t) == t);
}

/// Leading dots do not matter: a string and the same string after any number of extra dots
/// lose the same leading dots.
pub proof fn lemma_strip_extra_dot(s: Seq<char>)
    ensures
        strip_leading_dots(seq!['.'] + s) == strip_leading_dots(s),
{
    assert((seq!['.'] + s).drop_first() =~= s);
}

} // verus!
