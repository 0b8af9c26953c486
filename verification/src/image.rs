//! Container image references, such as `myrepo:myimage` or
//! `docker.io/polkadot:latest`.
use vstd::prelude::*;
use crate::quantity::{is_digit, char_is_digit};

verus! {

/// A lower-case ASCII letter or an ASCII digit.
pub open spec fn is_lower_alnum(c: char) -> bool {
    ('a' <= c <= 'z') || is_digit(c)
}

/// An ASCII letter or digit.
pub open spec fn is_alnum(c: char) -> bool {
    is_lower_alnum(c) || ('A' <= c <= 'Z')
}

/// A tag name, `[a-z0-9](-*[a-z0-9])*`: lower-case letters, digits and
/// dashes, beginning and ending with a letter or digit.
pub open spec fn is_tag_name(t: Seq<char>) -> bool {
    &&& t.len() > 0
    &&& is_lower_alnum(t[0])
    &&& is_lower_alnum(t[t.len() - 1])
    &&& forall|k: int| 0 <= k < t.len() ==> is_lower_alnum(#[trigger] t[k]) || t[k] == '-'
}

pub open spec fn is_version_char(c: char) -> bool {
    is_lower_alnum(c) || c == '-' || c == '.' || c == '_'
}

/// A tag version, `[a-z0-9_][-._a-z0-9]*`.
pub open spec fn is_tag_version(t: Seq<char>) -> bool {
    &&& t.len() > 0
    &&& (is_lower_alnum(t[0]) || t[0] == '_')
    &&& forall|k: int| 0 <= k < t.len() ==> is_version_char(#[trigger] t[k])
}

pub open spec fn is_host_char(c: char) -> bool {
    is_alnum(c) || c == '-' || c == '.'
}

/// A host name, `(label\.)*label` with each label
/// `[a-zA-Z0-9]([a-zA-Z0-9-]*[a-zA-Z0-9])?`: letters, digits, dashes and
/// dots, beginning and ending with a letter or digit, each dot between two
/// letters or digits.
pub open spec fn is_hostname(h: Seq<char>) -> bool {
    &&& h.len() > 0
    &&& is_alnum(h[0])
    &&& is_alnum(h[h.len() - 1])
    &&& forall|k: int| 0 <= k < h.len() ==> is_host_char(#[trigger] h[k])
    &&& forall|k: int|
        0 < k < h.len() - 1 && #[trigger] h[k] == '.' ==> is_alnum(h[k - 1]) && is_alnum(h[k + 1])
}

/// A decimal number from 0 to 255 without leading zeros:
/// `[0-9]|[1-9][0-9]|1[0-9]{2}|2[0-4][0-9]|25[0-5]`.
pub open spec fn is_octet(o: Seq<char>) -> bool {
    ||| o.len() == 1 && is_digit(o[0])
    ||| o.len() == 2 && '1' <= o[0] <= '9' && is_digit(o[1])
    ||| o.len() == 3 && o[0] == '1' && is_digit(o[1]) && is_digit(o[2])
    ||| o.len() == 3 && o[0] == '2' && '0' <= o[1] <= '4' && is_digit(o[2])
    ||| o.len() == 3 && o[0] == '2' && o[1] == '5' && '0' <= o[2] <= '5'
}

/// `p` is four octets joined by dots at `d1`, `d2` and `d3`.
pub open spec fn ipv4_split(p: Seq<char>, d1: int, d2: int, d3: int) -> bool {
    &&& 0 < d1 < d2 < d3 < p.len()
    &&& p[d1] == '.' && p[d2] == '.' && p[d3] == '.'
    &&& is_octet(p.subrange(0, d1))
    &&& is_octet(p.subrange(d1 + 1, d2))
    &&& is_octet(p.subrange(d2 + 1, d3))
    &&& is_octet(p.subrange(d3 + 1, p.len() as int))
}

/// An IPv4 address in dotted decimal notation.
pub open spec fn is_ipv4(p: Seq<char>) -> bool {
    exists|d1: int, d2: int, d3: int| ipv4_split(p, d1, d2, d3)
}

/// The registry part of an image: empty, an IPv4 address, or a host name
/// followed by `/`.
pub open spec fn is_registry(p: Seq<char>) -> bool {
    ||| p.len() == 0
    ||| is_ipv4(p)
    ||| p.len() >= 2 && p[p.len() - 1] == '/' && is_hostname(p.subrange(0, p.len() - 1))
}

/// The version part of an image: empty, or `:` and a tag version.
pub open spec fn is_version_part(v: Seq<char>) -> bool {
    v.len() == 0 || (v[0] == ':' && is_tag_version(v.subrange(1, v.len() as int)))
}

/// `s` splits at `i` and `j` into registry, tag name and version.
pub open spec fn image_split(s: Seq<char>, i: int, j: int) -> bool {
    &&& 0 <= i <= j <= s.len()
    &&& is_registry(s.subrange(0, i))
    &&& is_tag_name(s.subrange(i, j))
    &&& is_version_part(s.subrange(j, s.len() as int))
}

/// `s` is an image reference: it matches
/// `^([ip]|[hostname]/)?[tag_name](:[tag_version])?$`.
pub open spec fn is_image(s: Seq<char>) -> bool {
    exists|i: int, j: int| image_split(s, i, j)
}

/// The text of the pattern that images match, as error messages show it.
pub open spec fn image_regex() -> Seq<char> {
    "^([ip]|[hostname]/)?[tag_name]:[tag_version]?$"@
}

fn char_is_lower_alnum(c: char) -> (b: bool)
    ensures
        b == is_lower_alnum(c),
{
    ('a' <= c && c <= 'z') || char_is_digit(c)
}

fn char_is_alnum(c: char) -> (b: bool)
    ensures
        b == is_alnum(c),
{
    char_is_lower_alnum(c) || ('A' <= c && c <= 'Z')
}

/// The first position in `lo..hi` that holds `c`, or `hi` if none does.
fn find_char(v: &Vec<char>, c: char, lo: usize, hi: usize) -> (r: usize)
    requires
        lo <= hi <= v.len(),
    ensures
        lo <= r <= hi,
        r < hi ==> v@[r as int] == c,
        forall|k: int| lo <= k < r ==> v@[k] != c,
{
    let mut k: usize = lo;
    while k < hi
        invariant
            lo <= k <= hi <= v.len(),
            forall|j: int| lo <= j < k ==> v@[j] != c,
        decreases hi - k,
    {
        if v[k] == c {
            return k;
        }
        k = k + 1;
    }
    hi
}

fn octet_between(v: &Vec<char>, lo: usize, hi: usize) -> (b: bool)
    requires
        lo <= hi <= v.len(),
    ensures
        b == is_octet(v@.subrange(lo as int, hi as int)),
{
    let ghost o = v@.subrange(lo as int, hi as int);
    let len: usize = hi - lo;
    if len == 1 {
        assert(o[0] == v@[lo as int]);
        char_is_digit(v[lo])
    } else if len == 2 {
        assert(o[0] == v@[lo as int]);
        assert(o[1] == v@[lo + 1]);
        '1' <= v[lo] && v[lo] <= '9' && char_is_digit(v[lo + 1])
    } else if len == 3 {
        assert(o[0] == v@[lo as int]);
        assert(o[1] == v@[lo + 1]);
        assert(o[2] == v@[lo + 2]);
        let a: char = v[lo];
        let b: char = v[lo + 1];
        let c: char = v[lo + 2];
        (a == '1' && char_is_digit(b) && char_is_digit(c)) || (a == '2' && '0' <= b && b <= '4'
            && char_is_digit(c)) || (a == '2' && b == '5' && '0' <= c && c <= '5')
    } else {
        false
    }
}

proof fn lemma_octet_digits(o: Seq<char>)
    requires
        is_octet(o),
    ensures
        forall|k: int| 0 <= k < o.len() ==> is_digit(#[trigger] o[k]),
{
}

/// In a split address the dots of the split are its only dots.
proof fn lemma_ipv4_dots(v: Seq<char>, lo: int, hi: int, e1: int, e2: int, e3: int)
    requires
        0 <= lo <= hi <= v.len(),
        ipv4_split(v.subrange(lo, hi), e1, e2, e3),
    ensures
        v[lo + e1] == '.' && v[lo + e2] == '.' && v[lo + e3] == '.',
        lo + e3 < hi,
        forall|k: int| lo <= k < lo + e1 ==> v[k] != '.',
        forall|k: int| lo + e1 < k < lo + e2 ==> v[k] != '.',
        forall|k: int| lo + e2 < k < lo + e3 ==> v[k] != '.',
        forall|k: int| lo + e3 < k < hi ==> v[k] != '.',
{
    let p = v.subrange(lo, hi);
    assert(p[e1] == v[lo + e1]);
    assert(p[e2] == v[lo + e2]);
    assert(p[e3] == v[lo + e3]);
    let o1 = p.subrange(0, e1);
    let o2 = p.subrange(e1 + 1, e2);
    let o3 = p.subrange(e2 + 1, e3);
    let o4 = p.subrange(e3 + 1, p.len() as int);
    lemma_octet_digits(o1);
    lemma_octet_digits(o2);
    lemma_octet_digits(o3);
    lemma_octet_digits(o4);
    assert forall|k: int| lo <= k < lo + e1 implies v[k] != '.' by {
        assert(o1[k - lo] == v[k]);
    }
    assert forall|k: int| lo + e1 < k < lo + e2 implies v[k] != '.' by {
        assert(o2[k - lo - e1 - 1] == v[k]);
    }
    assert forall|k: int| lo + e2 < k < lo + e3 implies v[k] != '.' by {
        assert(o3[k - lo - e2 - 1] == v[k]);
    }
    assert forall|k: int| lo + e3 < k < hi implies v[k] != '.' by {
        assert(o4[k - lo - e3 - 1] == v[k]);
    }
}

/// Whether `v[lo..hi]` is an IPv4 address.
fn ipv4_between(v: &Vec<char>, lo: usize, hi: usize) -> (b: bool)
    requires
        lo <= hi <= v.len(),
    ensures
        b == is_ipv4(v@.subrange(lo as int, hi as int)),
{
    let ghost p = v@.subrange(lo as int, hi as int);
    let d1 = find_char(v, '.', lo, hi);
    if d1 == hi {
        assert forall|e1: int, e2: int, e3: int| !ipv4_split(p, e1, e2, e3) by {
            if ipv4_split(p, e1, e2, e3) {
                lemma_ipv4_dots(v@, lo as int, hi as int, e1, e2, e3);
            }
        }
        return false;
    }
    let d2 = find_char(v, '.', d1 + 1, hi);
    if d2 == hi {
        assert forall|e1: int, e2: int, e3: int| !ipv4_split(p, e1, e2, e3) by {
            if ipv4_split(p, e1, e2, e3) {
                lemma_ipv4_dots(v@, lo as int, hi as int, e1, e2, e3);
            }
        }
        return false;
    }
    let d3 = find_char(v, '.', d2 + 1, hi);
    if d3 == hi {
        assert forall|e1: int, e2: int, e3: int| !ipv4_split(p, e1, e2, e3) by {
            if ipv4_split(p, e1, e2, e3) {
                lemma_ipv4_dots(v@, lo as int, hi as int, e1, e2, e3);
            }
        }
        return false;
    }
    let d4 = find_char(v, '.', d3 + 1, hi);
    // Any split puts its dots where the search found them.
    assert forall|e1: int, e2: int, e3: int| ipv4_split(p, e1, e2, e3) implies e1 == d1 - lo && e2
        == d2 - lo && e3 == d3 - lo && d4 == hi by {
        lemma_ipv4_dots(v@, lo as int, hi as int, e1, e2, e3);
    }
    if d4 != hi {
        return false;
    }
    let r = octet_between(v, lo, d1) && octet_between(v, d1 + 1, d2) && octet_between(
        v,
        d2 + 1,
        d3,
    ) && octet_between(v, d3 + 1, hi);
    proof {
        let (e1, e2, e3) = ((d1 - lo) as int, (d2 - lo) as int, (d3 - lo) as int);
        assert(p.subrange(0, e1) =~= v@.subrange(lo as int, d1 as int));
        assert(p.subrange(e1 + 1, e2) =~= v@.subrange(d1 + 1, d2 as int));
        assert(p.subrange(e2 + 1, e3) =~= v@.subrange(d2 + 1, d3 as int));
        assert(p.subrange(e3 + 1, p.len() as int) =~= v@.subrange(d3 + 1, hi as int));
        assert(p[e1] == v@[d1 as int]);
        assert(p[e2] == v@[d2 as int]);
        assert(p[e3] == v@[d3 as int]);
        if r {
            assert(ipv4_split(p, e1, e2, e3));
        }
    }
    r
}

proof fn lemma_registry_has_no_colon(p: Seq<char>)
    requires
        is_registry(p),
    ensures
        forall|k: int| 0 <= k < p.len() ==> #[trigger] p[k] != ':',
{
    if is_ipv4(p) {
        let (e1, e2, e3) = choose|e1: int, e2: int, e3: int| ipv4_split(p, e1, e2, e3);
        lemma_octet_digits(p.subrange(0, e1));
        lemma_octet_digits(p.subrange(e1 + 1, e2));
        lemma_octet_digits(p.subrange(e2 + 1, e3));
        lemma_octet_digits(p.subrange(e3 + 1, p.len() as int));
        assert forall|k: int| 0 <= k < p.len() implies #[trigger] p[k] != ':' by {
            if k < e1 {
                assert(p.subrange(0, e1)[k] == p[k]);
            } else if e1 < k < e2 {
                assert(p.subrange(e1 + 1, e2)[k - e1 - 1] == p[k]);
            } else if e2 < k < e3 {
                assert(p.subrange(e2 + 1, e3)[k - e2 - 1] == p[k]);
            } else if e3 < k {
                assert(p.subrange(e3 + 1, p.len() as int)[k - e3 - 1] == p[k]);
            }
        }
    } else if p.len() >= 2 {
        let h = p.subrange(0, p.len() - 1);
        assert forall|k: int| 0 <= k < p.len() implies #[trigger] p[k] != ':' by {
            if k < p.len() - 1 {
                assert(h[k] == p[k]);
            }
        }
    }
}

fn hostname_between(v: &Vec<char>, lo: usize, hi: usize) -> (b: bool)
    requires
        lo <= hi <= v.len(),
    ensures
        b == is_hostname(v@.subrange(lo as int, hi as int)),
{
    let ghost h = v@.subrange(lo as int, hi as int);
    if lo == hi {
        return false;
    }
    assert(h[0] == v@[lo as int]);
    assert(h[h.len() - 1] == v@[hi - 1]);
    if !char_is_alnum(v[lo]) || !char_is_alnum(v[hi - 1]) {
        return false;
    }
    let mut k: usize = lo;
    while k < hi
        invariant
            lo < hi <= v.len(),
            lo <= k <= hi,
            h == v@.subrange(lo as int, hi as int),
            forall|j: int| 0 <= j < k - lo ==> is_host_char(#[trigger] h[j]),
            forall|j: int|
                0 < j < k - lo && j < h.len() - 1 && #[trigger] h[j] == '.' ==> is_alnum(h[j - 1])
                    && is_alnum(h[j + 1]),
        decreases hi - k,
    {
        let c: char = v[k];
        assert(h[k - lo] == c);
        if !(char_is_alnum(c) || c == '-' || c == '.') {
            return false;
        }
        if c == '.' && lo < k && k + 1 < hi {
            assert(h[k - lo - 1] == v@[k - 1]);
            assert(h[k - lo + 1] == v@[k + 1]);
            if !char_is_alnum(v[k - 1]) || !char_is_alnum(v[k + 1]) {
                return false;
            }
        }
        k = k + 1;
    }
    true
}

fn tag_name_between(v: &Vec<char>, lo: usize, hi: usize) -> (b: bool)
    requires
        lo <= hi <= v.len(),
    ensures
        b == is_tag_name(v@.subrange(lo as int, hi as int)),
{
    let ghost t = v@.subrange(lo as int, hi as int);
    if lo == hi {
        return false;
    }
    assert(t[0] == v@[lo as int]);
    assert(t[t.len() - 1] == v@[hi - 1]);
    if !char_is_lower_alnum(v[lo]) || !char_is_lower_alnum(v[hi - 1]) {
        return false;
    }
    let mut k: usize = lo;
    while k < hi
        invariant
            lo <= k <= hi <= v.len(),
            t == v@.subrange(lo as int, hi as int),
            forall|j: int| 0 <= j < k - lo ==> is_lower_alnum(#[trigger] t[j]) || t[j] == '-',
        decreases hi - k,
    {
        assert(t[k - lo] == v@[k as int]);
        if !(char_is_lower_alnum(v[k]) || v[k] == '-') {
            return false;
        }
        k = k + 1;
    }
    true
}

fn tag_version_between(v: &Vec<char>, lo: usize, hi: usize) -> (b: bool)
    requires
        lo <= hi <= v.len(),
    ensures
        b == is_tag_version(v@.subrange(lo as int, hi as int)),
{
    let ghost t = v@.subrange(lo as int, hi as int);
    if lo == hi {
        return false;
    }
    assert(t[0] == v@[lo as int]);
    if !(char_is_lower_alnum(v[lo]) || v[lo] == '_') {
        return false;
    }
    let mut k: usize = lo;
    while k < hi
        invariant
            lo <= k <= hi <= v.len(),
            t == v@.subrange(lo as int, hi as int),
            forall|j: int| 0 <= j < k - lo ==> is_version_char(#[trigger] t[j]),
        decreases hi - k,
    {
        assert(t[k - lo] == v@[k as int]);
        let c: char = v[k];
        if !(char_is_lower_alnum(c) || c == '-' || c == '.' || c == '_') {
            return false;
        }
        k = k + 1;
    }
    true
}

fn registry_between(v: &Vec<char>, hi: usize) -> (b: bool)
    requires
        hi <= v.len(),
    ensures
        b == is_registry(v@.subrange(0, hi as int)),
{
    let ghost p = v@.subrange(0, hi as int);
    if hi == 0 {
        return true;
    }
    if ipv4_between(v, 0, hi) {
        return true;
    }
    assert(p[p.len() - 1] == v@[hi - 1]);
    assert(p.subrange(0, p.len() - 1) =~= v@.subrange(0, hi - 1));
    hi >= 2 && v[hi - 1] == '/' && hostname_between(v, 0, hi - 1)
}

/// Whether the characters `v` form an image reference.
pub fn image_matches(v: &Vec<char>) -> (r: bool)
    ensures
        r == is_image(v@),
{
    let ghost s = v@;
    let n: usize = v.len();
    let j: usize = find_char(v, ':', 0, n);
    // The version part of any split begins at the first colon.
    assert forall|i2: int, j2: int| image_split(s, i2, j2) implies j2 == j by {
        let p = s.subrange(0, i2);
        let t = s.subrange(i2, j2);
        let w = s.subrange(j2, n as int);
        lemma_registry_has_no_colon(p);
        assert forall|k: int| 0 <= k < j2 implies s[k] != ':' by {
            if k < i2 {
                assert(p[k] == s[k]);
            } else {
                assert(t[k - i2] == s[k]);
            }
        }
        if j2 < n {
            assert(w[0] == s[j2]);
        } else if j < n {
            assert(s[j as int] == ':');
        }
    }
    let version_ok: bool = if j == n {
        true
    } else {
        tag_version_between(v, j + 1, n)
    };
    proof {
        let w = s.subrange(j as int, n as int);
        if j < n {
            assert(w[0] == s[j as int]);
            assert(w.subrange(1, w.len() as int) =~= s.subrange(j + 1, n as int));
        }
        assert(version_ok == is_version_part(w));
    }
    if !version_ok {
        return false;
    }
    let mut i: usize = 0;
    while i < j
        invariant
            i <= j <= n == v.len(),
            s == v@,
            is_version_part(s.subrange(j as int, n as int)),
            forall|i2: int, j2: int| image_split(s, i2, j2) ==> j2 == j,
            forall|i2: int| 0 <= i2 < i ==> !image_split(s, i2, j as int),
        decreases j - i,
    {
        if registry_between(v, i) && tag_name_between(v, i, j) {
            assert(image_split(s, i as int, j as int));
            return true;
        }
        i = i + 1;
    }
    assert(!is_tag_name(s.subrange(j as int, j as int)));
    false
}

} // verus!
