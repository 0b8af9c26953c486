//! Resource quantities, such as `500M`, `1.5Gi` or `250m`.
use vstd::prelude::*;

verus! {

/// An ASCII decimal digit.
pub open spec fn is_digit(c: char) -> bool {
    '0' <= c <= '9'
}

/// A decimal digit of any script: a character of the Unicode general
/// category `Nd` (as of Unicode 15.0), which is what `\d` matches.
pub open spec fn is_decimal_digit(c: char) -> bool {
    let n = c as u32;
    ||| 0x30 <= n <= 0x39
    ||| 0x660 <= n <= 0x669
    ||| 0x6f0 <= n <= 0x6f9
    ||| 0x7c0 <= n <= 0x7c9
    ||| 0x966 <= n <= 0x96f
    ||| 0x9e6 <= n <= 0x9ef
    ||| 0xa66 <= n <= 0xa6f
    ||| 0xae6 <= n <= 0xaef
    ||| 0xb66 <= n <= 0xb6f
    ||| 0xbe6 <= n <= 0xbef
    ||| 0xc66 <= n <= 0xc6f
    ||| 0xce6 <= n <= 0xcef
    ||| 0xd66 <= n <= 0xd6f
    ||| 0xde6 <= n <= 0xdef
    ||| 0xe50 <= n <= 0xe59
    ||| 0xed0 <= n <= 0xed9
    ||| 0xf20 <= n <= 0xf29
    ||| 0x1040 <= n <= 0x1049
    ||| 0x1090 <= n <= 0x1099
    ||| 0x17e0 <= n <= 0x17e9
    ||| 0x1810 <= n <= 0x1819
    ||| 0x1946 <= n <= 0x194f
    ||| 0x19d0 <= n <= 0x19d9
    ||| 0x1a80 <= n <= 0x1a89
    ||| 0x1a90 <= n <= 0x1a99
    ||| 0x1b50 <= n <= 0x1b59
    ||| 0x1bb0 <= n <= 0x1bb9
    ||| 0x1c40 <= n <= 0x1c49
    ||| 0x1c50 <= n <= 0x1c59
    ||| 0xa620 <= n <= 0xa629
    ||| 0xa8d0 <= n <= 0xa8d9
    ||| 0xa900 <= n <= 0xa909
    ||| 0xa9d0 <= n <= 0xa9d9
    ||| 0xa9f0 <= n <= 0xa9f9
    ||| 0xaa50 <= n <= 0xaa59
    ||| 0xabf0 <= n <= 0xabf9
    ||| 0xff10 <= n <= 0xff19
    ||| 0x104a0 <= n <= 0x104a9
    ||| 0x10d30 <= n <= 0x10d39
    ||| 0x11066 <= n <= 0x1106f
    ||| 0x110f0 <= n <= 0x110f9
    ||| 0x11136 <= n <= 0x1113f
    ||| 0x111d0 <= n <= 0x111d9
    ||| 0x112f0 <= n <= 0x112f9
    ||| 0x11450 <= n <= 0x11459
    ||| 0x114d0 <= n <= 0x114d9
    ||| 0x11650 <= n <= 0x11659
    ||| 0x116c0 <= n <= 0x116c9
    ||| 0x11730 <= n <= 0x11739
    ||| 0x118e0 <= n <= 0x118e9
    ||| 0x11950 <= n <= 0x11959
    ||| 0x11c50 <= n <= 0x11c59
    ||| 0x11d50 <= n <= 0x11d59
    ||| 0x11da0 <= n <= 0x11da9
    ||| 0x11f50 <= n <= 0x11f59
    ||| 0x16a60 <= n <= 0x16a69
    ||| 0x16ac0 <= n <= 0x16ac9
    ||| 0x16b50 <= n <= 0x16b59
    ||| 0x1d7ce <= n <= 0x1d7ff
    ||| 0x1e140 <= n <= 0x1e149
    ||| 0x1e2f0 <= n <= 0x1e2f9
    ||| 0x1e4f0 <= n <= 0x1e4f9
    ||| 0x1e950 <= n <= 0x1e959
    ||| 0x1fbf0 <= n <= 0x1fbf9
}

/// A letter that scales a quantity by a power of ten or of two.
pub open spec fn is_scale(c: char) -> bool {
    c == 'K' || c == 'M' || c == 'G' || c == 'T' || c == 'P' || c == 'E'
}

/// A nonempty run of decimal digits.
pub open spec fn all_digits(s: Seq<char>) -> bool {
    s.len() > 0 && forall|k: int| 0 <= k < s.len() ==> is_decimal_digit(#[trigger] s[k])
}

/// The optional fractional part of a quantity: empty, or any character but a
/// line feed followed by a nonempty run of digits.
pub open spec fn is_fraction(t: Seq<char>) -> bool {
    t.len() == 0 || (t[0] != '\n' && all_digits(t.subrange(1, t.len() as int)))
}

/// The optional unit of a quantity: empty, `m`, one of `K M G T P E`, or one
/// of those followed by `i`.
pub open spec fn is_unit(u: Seq<char>) -> bool {
    ||| u.len() == 0
    ||| u.len() == 1 && (u[0] == 'm' || is_scale(u[0]))
    ||| u.len() == 2 && is_scale(u[0]) && u[1] == 'i'
}

/// `s` splits at `a` and `b` into digits, fraction and unit.
pub open spec fn quantity_split(s: Seq<char>, a: int, b: int) -> bool {
    &&& 0 < a <= b <= s.len()
    &&& all_digits(s.subrange(0, a))
    &&& is_fraction(s.subrange(a, b))
    &&& is_unit(s.subrange(b, s.len() as int))
}

/// `s` is a resource quantity: it matches
/// `^\d+(.\d+)?(m|K|M|G|T|P|E|Ki|Mi|Gi|Ti|Pi|Ei)?$`, with `\d` any decimal
/// digit.
pub open spec fn is_quantity(s: Seq<char>) -> bool {
    exists|a: int, b: int| quantity_split(s, a, b)
}

/// The text of the pattern that quantities match, as error messages show it.
pub open spec fn quantity_regex() -> Seq<char> {
    "^\\d+(.\\d+)?(m|K|M|G|T|P|E|Ki|Mi|Gi|Ti|Pi|Ei)?$"@
}

/// The characters of `s`, in order.
pub fn chars_of(s: &str) -> (v: Vec<char>)
    ensures
        v@ == s@,
{
    let n: usize = s.unicode_len();
    let mut v: Vec<char> = Vec::new();
    let mut i: usize = 0;
    while i < n
        invariant
            n == s@.len(),
            i <= n,
            v@ == s@.subrange(0, i as int),
        decreases n - i,
    {
        v.push(s.get_char(i));
        i = i + 1;
        assert(v@ =~= s@.subrange(0, i as int));
    }
    assert(v@ =~= s@);
    v
}

pub fn char_is_digit(c: char) -> (b: bool)
    ensures
        b == is_digit(c),
{
    '0' <= c && c <= '9'
}

pub fn char_is_decimal_digit(c: char) -> (b: bool)
    ensures
        b == is_decimal_digit(c),
{
    let n: u32 = c as u32;
    (0x30 <= n && n <= 0x39) ||
    (0x660 <= n && n <= 0x669) ||
    (0x6f0 <= n && n <= 0x6f9) ||
    (0x7c0 <= n && n <= 0x7c9) ||
    (0x966 <= n && n <= 0x96f) ||
    (0x9e6 <= n && n <= 0x9ef) ||
    (0xa66 <= n && n <= 0xa6f) ||
    (0xae6 <= n && n <= 0xaef) ||
    (0xb66 <= n && n <= 0xb6f) ||
    (0xbe6 <= n && n <= 0xbef) ||
    (0xc66 <= n && n <= 0xc6f) ||
    (0xce6 <= n && n <= 0xcef) ||
    (0xd66 <= n && n <= 0xd6f) ||
    (0xde6 <= n && n <= 0xdef) ||
    (0xe50 <= n && n <= 0xe59) ||
    (0xed0 <= n && n <= 0xed9) ||
    (0xf20 <= n && n <= 0xf29) ||
    (0x1040 <= n && n <= 0x1049) ||
    (0x1090 <= n && n <= 0x1099) ||
    (0x17e0 <= n && n <= 0x17e9) ||
    (0x1810 <= n && n <= 0x1819) ||
    (0x1946 <= n && n <= 0x194f) ||
    (0x19d0 <= n && n <= 0x19d9) ||
    (0x1a80 <= n && n <= 0x1a89) ||
    (0x1a90 <= n && n <= 0x1a99) ||
    (0x1b50 <= n && n <= 0x1b59) ||
    (0x1bb0 <= n && n <= 0x1bb9) ||
    (0x1c40 <= n && n <= 0x1c49) ||
    (0x1c50 <= n && n <= 0x1c59) ||
    (0xa620 <= n && n <= 0xa629) ||
    (0xa8d0 <= n && n <= 0xa8d9) ||
    (0xa900 <= n && n <= 0xa909) ||
    (0xa9d0 <= n && n <= 0xa9d9) ||
    (0xa9f0 <= n && n <= 0xa9f9) ||
    (0xaa50 <= n && n <= 0xaa59) ||
    (0xabf0 <= n && n <= 0xabf9) ||
    (0xff10 <= n && n <= 0xff19) ||
    (0x104a0 <= n && n <= 0x104a9) ||
    (0x10d30 <= n && n <= 0x10d39) ||
    (0x11066 <= n && n <= 0x1106f) ||
    (0x110f0 <= n && n <= 0x110f9) ||
    (0x11136 <= n && n <= 0x1113f) ||
    (0x111d0 <= n && n <= 0x111d9) ||
    (0x112f0 <= n && n <= 0x112f9) ||
    (0x11450 <= n && n <= 0x11459) ||
    (0x114d0 <= n && n <= 0x114d9) ||
    (0x11650 <= n && n <= 0x11659) ||
    (0x116c0 <= n && n <= 0x116c9) ||
    (0x11730 <= n && n <= 0x11739) ||
    (0x118e0 <= n && n <= 0x118e9) ||
    (0x11950 <= n && n <= 0x11959) ||
    (0x11c50 <= n && n <= 0x11c59) ||
    (0x11d50 <= n && n <= 0x11d59) ||
    (0x11da0 <= n && n <= 0x11da9) ||
    (0x11f50 <= n && n <= 0x11f59) ||
    (0x16a60 <= n && n <= 0x16a69) ||
    (0x16ac0 <= n && n <= 0x16ac9) ||
    (0x16b50 <= n && n <= 0x16b59) ||
    (0x1d7ce <= n && n <= 0x1d7ff) ||
    (0x1e140 <= n && n <= 0x1e149) ||
    (0x1e2f0 <= n && n <= 0x1e2f9) ||
    (0x1e4f0 <= n && n <= 0x1e4f9) ||
    (0x1e950 <= n && n <= 0x1e959) ||
    (0x1fbf0 <= n && n <= 0x1fbf9)
}

fn char_is_scale(c: char) -> (b: bool)
    ensures
        b == is_scale(c),
{
    c == 'K' || c == 'M' || c == 'G' || c == 'T' || c == 'P' || c == 'E'
}

/// Whether `v[lo..hi]` is a nonempty run of decimal digits.
pub fn digits_between(v: &Vec<char>, lo: usize, hi: usize) -> (b: bool)
    requires
        lo <= hi <= v.len(),
    ensures
        b == all_digits(v@.subrange(lo as int, hi as int)),
{
    if lo == hi {
        return false;
    }
    let mut k: usize = lo;
    while k < hi
        invariant
            lo <= k <= hi <= v.len(),
            forall|j: int| lo <= j < k ==> is_decimal_digit(#[trigger] v@[j]),
        decreases hi - k,
    {
        if !char_is_decimal_digit(v[k]) {
            assert(!is_decimal_digit(v@.subrange(lo as int, hi as int)[k - lo]));
            return false;
        }
        k = k + 1;
    }
    assert forall|j: int| 0 <= j < hi - lo implies is_decimal_digit(
        #[trigger] v@.subrange(lo as int, hi as int)[j],
    ) by {
        assert(v@.subrange(lo as int, hi as int)[j] == v@[lo + j]);
    }
    true
}

fn fraction_between(v: &Vec<char>, lo: usize, hi: usize) -> (b: bool)
    requires
        lo <= hi <= v.len(),
    ensures
        b == is_fraction(v@.subrange(lo as int, hi as int)),
{
    let ghost t = v@.subrange(lo as int, hi as int);
    if lo == hi {
        return true;
    }
    assert(t[0] == v@[lo as int]);
    assert(t.subrange(1, t.len() as int) =~= v@.subrange(lo + 1, hi as int));
    v[lo] != '\n' && digits_between(v, lo + 1, hi)
}

/// Whether the characters `v` form a resource quantity.
pub fn quantity_matches(v: &Vec<char>) -> (r: bool)
    ensures
        r == is_quantity(v@),
{
    let n: usize = v.len();
    let ghost s = v@;
    // In any split, the character before the unit is a digit.
    assert forall|a: int, b: int| quantity_split(s, a, b) implies is_decimal_digit(s[b - 1]) by {
        if b == a {
            assert(s.subrange(0, a)[a - 1] == s[a - 1]);
        } else {
            let t = s.subrange(a, b);
            let d = t.subrange(1, t.len() as int);
            assert(d[d.len() - 1] == s[b - 1]);
        }
    }
    if n == 0 {
        return false;
    }
    let last: char = v[n - 1];
    let b: usize;
    if char_is_decimal_digit(last) {
        b = n;
    } else if last == 'm' || char_is_scale(last) {
        b = n - 1;
    } else if last == 'i' && n >= 2 && char_is_scale(v[n - 2]) {
        b = n - 2;
    } else {
        assert forall|a: int, b: int| !quantity_split(s, a, b) by {
            if quantity_split(s, a, b) {
                let u = s.subrange(b, n as int);
                if u.len() == 1 {
                    assert(u[0] == s[n - 1]);
                } else if u.len() == 2 {
                    assert(u[1] == s[n - 1]);
                    assert(u[0] == s[n - 2]);
                }
            }
        }
        return false;
    }
    assert(is_unit(s.subrange(b as int, n as int))) by {
        let u = s.subrange(b as int, n as int);
        if b == n - 1 {
            assert(u[0] == s[n - 1]);
        } else if b == n - 2 {
            assert(u[0] == s[n - 2]);
            assert(u[1] == s[n - 1]);
        }
    }
    // Every split ends its fraction where the unit found above begins.
    assert forall|a: int, b2: int| quantity_split(s, a, b2) implies b2 == b by {
        let u = s.subrange(b2, n as int);
        if u.len() == 1 {
            assert(u[0] == s[n - 1]);
        } else if u.len() == 2 {
            assert(u[1] == s[n - 1]);
        }
    }
    if b == 0 {
        return false;
    }
    let mut a: usize = 1;
    while a < b
        invariant
            1 <= a <= b,
            b <= n == v.len(),
            s == v@,
            is_unit(s.subrange(b as int, n as int)),
            forall|a2: int, b2: int| quantity_split(s, a2, b2) ==> b2 == b,
            forall|a2: int| 0 < a2 < a ==> !quantity_split(s, a2, b as int),
        decreases b - a,
    {
        if digits_between(v, 0, a) && fraction_between(v, a, b) {
            assert(quantity_split(s, a as int, b as int));
            return true;
        }
        a = a + 1;
    }
    if digits_between(v, 0, b) && fraction_between(v, b, b) {
        assert(quantity_split(s, b as int, b as int));
        return true;
    }
    assert(!quantity_split(s, b as int, b as int));
    false
}

} // verus!
