//! Verified string helpers over the character view of `str`.

use vstd::prelude::*;
use vstd::string::StringSliceAdditionalSpecFns;

verus! {

broadcast use vstd::string::group_string_axioms;

/// The characters of `s`, in order.
pub fn chars_of(s: &str) -> (v: Vec<char>)
    ensures
        v@ == s@,
{
    let mut v: Vec<char> = Vec::new();
    for c in it: s.chars()
        invariant
            v@ == it.seq().take(it.index() as int),
            it.seq() == s@,
    {
        v.push(c);
    }
    v
}

/// Index of the first occurrence of `c` in `s`.
pub open spec fn find_char(s: Seq<char>, c: char) -> Option<int>
    decreases s.len(),
{
    if s.len() == 0 {
        None
    } else if s[0] == c {
        Some(0)
    } else {
        match find_char(s.drop_first(), c) {
            Some(k) => Some(k + 1),
            None => None,
        }
    }
}

pub proof fn lemma_find_char(s: Seq<char>, c: char)
    ensures
        find_char(s, c) matches Some(k) ==> 0 <= k < s.len() && s[k] == c && forall|j: int|
            0 <= j < k ==> s[j] != c,
        find_char(s, c) is None ==> forall|j: int| 0 <= j < s.len() ==> s[j] != c,
    decreases s.len(),
{
    if s.len() > 0 {
        lemma_find_char(s.drop_first(), c);
        if s[0] != c {
            assert forall|j: int| 1 <= j < s.len() implies s[j] == s.drop_first()[j - 1] by {}
        }
    }
}

/// `find_char` is determined by the position of the first occurrence.
pub proof fn lemma_find_char_at(s: Seq<char>, c: char, k: int)
    requires
        0 <= k < s.len(),
        s[k] == c,
        forall|j: int| 0 <= j < k ==> s[j] != c,
    ensures
        find_char(s, c) == Some(k),
{
    lemma_find_char(s, c);
    match find_char(s, c) {
        Some(k2) => {
            if k2 < k {
            } else if k < k2 {
            }
        },
        None => {},
    }
}

pub proof fn lemma_find_char_none(s: Seq<char>, c: char)
    requires
        forall|j: int| 0 <= j < s.len() ==> s[j] != c,
    ensures
        find_char(s, c) is None,
{
    lemma_find_char(s, c);
}

/// `s` split at every occurrence of `sep`, as `str::split` with a `char`
/// pattern does it (an empty `s` gives one empty part).
pub open spec fn spec_split(s: Seq<char>, sep: char) -> Seq<Seq<char>>
    decreases s.len(),
{
    match find_char(s, sep) {
        Some(k) => if 0 <= k < s.len() {
            seq![s.take(k)] + spec_split(s.skip(k + 1), sep)
        } else {
            seq![s]
        },
        None => seq![s],
    }
}

pub proof fn lemma_split_nonempty(s: Seq<char>, sep: char)
    ensures
        spec_split(s, sep).len() >= 1,
    decreases s.len(),
{
    lemma_find_char(s, sep);
    if let Some(k) = find_char(s, sep) {
        lemma_split_nonempty(s.skip(k + 1), sep);
    }
}

/// The views of a sequence of string slices.
pub open spec fn str_views(v: Seq<&str>) -> Seq<Seq<char>> {
    v.map_values(|p: &str| p@)
}

/// The views of a sequence of owned strings.
pub open spec fn string_views(v: Seq<String>) -> Seq<Seq<char>> {
    v.map_values(|p: String| p@)
}

/// Splits `s` at every occurrence of `sep`.
pub fn split_char<'a>(s: &'a str, sep: char) -> (parts: Vec<&'a str>)
    ensures
        str_views(parts@) == spec_split(s@, sep),
{
    let chars = chars_of(s);
    let n = chars.len();
    let mut parts: Vec<&'a str> = Vec::new();
    let mut start: usize = 0;
    let mut i: usize = 0;
    proof {
        assert(s@.skip(0) =~= s@);
        assert(str_views(parts@) =~= Seq::<Seq<char>>::empty());
    }
    while i < n
        invariant
            chars@ == s@,
            n == s@.len(),
            start <= i <= n,
            forall|j: int| start <= j < i ==> s@[j] != sep,
            str_views(parts@) + spec_split(s@.skip(start as int), sep) == spec_split(s@, sep),
        decreases n - i,
    {
        if chars[i] == sep {
            let part = s.substring_char(start, i);
            proof {
                let rest = s@.skip(start as int);
                let k = (i - start) as int;
                assert forall|j: int| 0 <= j < k implies rest[j] != sep by {
                    assert(rest[j] == s@[start + j]);
                }
                lemma_find_char_at(rest, sep, k);
                assert(rest.take(k) == s@.subrange(start as int, i as int));
                assert(rest.skip(k + 1) == s@.skip(i + 1));
                assert(str_views(parts@.push(part)) == str_views(parts@).push(part@));
            }
            parts.push(part);
            start = i + 1;
        }
        i = i + 1;
    }
    let last = s.substring_char(start, n);
    proof {
        let rest = s@.skip(start as int);
        assert forall|j: int| 0 <= j < rest.len() implies rest[j] != sep by {
            assert(rest[j] == s@[start + j]);
        }
        lemma_find_char_none(rest, sep);
        assert(rest == s@.subrange(start as int, n as int));
        assert(str_views(parts@.push(last)) == str_views(parts@).push(last@));
    }
    parts.push(last);
    parts
}

/// Whether two strings have the same characters.
pub fn str_eq(a: &str, b: &str) -> (r: bool)
    ensures
        r == (a@ == b@),
{
    broadcast use vstd::utf8::encode_utf8_decode_utf8;

    let x = a.as_bytes();
    let y = b.as_bytes();
    if x.len() != y.len() {
        proof {
            if a@ == b@ {
                assert(x@ == y@);
            }
        }
        return false;
    }
    let mut i: usize = 0;
    while i < x.len()
        invariant
            x@.len() == y@.len(),
            i <= x@.len(),
            x@ == a.spec_bytes(),
            y@ == b.spec_bytes(),
            forall|j: int| 0 <= j < i ==> x@[j] == y@[j],
        decreases x@.len() - i,
    {
        if x[i] != y[i] {
            proof {
                if a@ == b@ {
                    assert(x@ == y@);
                }
            }
            return false;
        }
        i = i + 1;
    }
    proof {
        assert(x@ =~= y@);
        assert(vstd::utf8::decode_utf8(x@) == a@);
        assert(vstd::utf8::decode_utf8(y@) == b@);
    }
    true
}


/// Unicode `White_Space`, the set that `char::is_whitespace` and `str::trim`
/// use.
pub open spec fn is_ws(c: char) -> bool {
    let u = c as u32;
    (0x9 <= u <= 0xD) || u == 0x20 || u == 0x85 || u == 0xA0 || u == 0x1680 || (0x2000 <= u
        <= 0x200A) || u == 0x2028 || u == 0x2029 || u == 0x202F || u == 0x205F || u == 0x3000
}

/// Whether `c` is Unicode white space.
pub fn is_whitespace(c: char) -> (b: bool)
    ensures
        b == is_ws(c),
{
    let u = c as u32;
    (0x9 <= u && u <= 0xD) || u == 0x20 || u == 0x85 || u == 0xA0 || u == 0x1680 || (0x2000 <= u
        && u <= 0x200A) || u == 0x2028 || u == 0x2029 || u == 0x202F || u == 0x205F || u == 0x3000
}

/// Index of the first character at or after `i` that is not white space
/// (`s.len()` when there is none).
pub open spec fn first_non_ws(s: Seq<char>, i: int) -> int
    decreases s.len() - i,
{
    if i >= s.len() {
        s.len() as int
    } else if !is_ws(s[i]) {
        i
    } else {
        first_non_ws(s, i + 1)
    }
}

/// End (exclusive) of the last character before `j` that is not white space
/// (`0` when there is none).
pub open spec fn end_non_ws(s: Seq<char>, j: int) -> int
    decreases j,
{
    if j <= 0 {
        0
    } else if !is_ws(s[j - 1]) {
        j
    } else {
        end_non_ws(s, j - 1)
    }
}

/// `s` without leading and trailing white space.
pub open spec fn spec_trim(s: Seq<char>) -> Seq<char> {
    let a = first_non_ws(s, 0);
    let b = end_non_ws(s, s.len() as int);
    if a < b {
        s.subrange(a, b)
    } else {
        Seq::empty()
    }
}

/// Removes leading and trailing white space, as `str::trim` does.
pub fn trim(s: &str) -> (t: &str)
    ensures
        t@ == spec_trim(s@),
{
    let chars = chars_of(s);
    let n = chars.len();
    let mut a: usize = 0;
    while a < n && is_whitespace(chars[a])
        invariant
            chars@ == s@,
            n == s@.len(),
            a <= n,
            first_non_ws(s@, 0) == first_non_ws(s@, a as int),
        decreases n - a,
    {
        a = a + 1;
    }
    let mut b: usize = n;
    while b > 0 && is_whitespace(chars[b - 1])
        invariant
            chars@ == s@,
            n == s@.len(),
            b <= n,
            end_non_ws(s@, n as int) == end_non_ws(s@, b as int),
        decreases b,
    {
        b = b - 1;
    }
    proof {
        assert(first_non_ws(s@, a as int) == a);
        assert(end_non_ws(s@, b as int) == b);
    }
    if a < b {
        s.substring_char(a, b)
    } else {
        s.substring_char(0, 0)
    }
}

/// Whether `p` is a prefix of `s`.
pub open spec fn is_prefix(p: Seq<char>, s: Seq<char>) -> bool {
    p.len() <= s.len() && s.take(p.len() as int) == p
}

/// Whether `s` starts with `p`.
pub fn starts_with(s: &str, p: &str) -> (b: bool)
    ensures
        b == is_prefix(p@, s@),
{
    let sc = chars_of(s);
    let pc = chars_of(p);
    if pc.len() > sc.len() {
        return false;
    }
    let mut i: usize = 0;
    while i < pc.len()
        invariant
            sc@ == s@,
            pc@ == p@,
            pc@.len() <= sc@.len(),
            i <= pc@.len(),
            forall|j: int| 0 <= j < i ==> sc@[j] == pc@[j],
        decreases pc@.len() - i,
    {
        if sc[i] != pc[i] {
            proof {
                assert(s@.take(p@.len() as int)[i as int] != p@[i as int]);
            }
            return false;
        }
        i = i + 1;
    }
    proof {
        assert(s@.take(p@.len() as int) =~= p@);
    }
    true
}

/// `s` without the prefix `p`, when `p` is a prefix of it.
pub open spec fn spec_strip_prefix(s: Seq<char>, p: Seq<char>) -> Option<Seq<char>> {
    if is_prefix(p, s) {
        Some(s.skip(p.len() as int))
    } else {
        None
    }
}

/// Returns `s` without the prefix `p`, as `str::strip_prefix` does.
pub fn strip_prefix<'a>(s: &'a str, p: &str) -> (r: Option<&'a str>)
    ensures
        r matches Some(t) ==> spec_strip_prefix(s@, p@) == Some(t@),
        r is None ==> spec_strip_prefix(s@, p@) is None,
{
    if starts_with(s, p) {
        let n = s.unicode_len();
        let k = p.unicode_len();
        let t = s.substring_char(k, n);
        proof {
            assert(t@ =~= s@.skip(p@.len() as int));
        }
        Some(t)
    } else {
        None
    }
}

/// The first `n` characters of `s` (all of `s` when it is shorter).
pub open spec fn spec_take_chars(s: Seq<char>, n: nat) -> Seq<char> {
    if s.len() <= n {
        s
    } else {
        s.take(n as int)
    }
}

/// Collects the first `n` characters of `s`, as `s.chars().take(n)` does.
pub fn take_chars(s: &str, n: usize) -> (t: String)
    ensures
        t@ == spec_take_chars(s@, n as nat),
{
    let len = s.unicode_len();
    if len <= n {
        String::from_str(s)
    } else {
        String::from_str(s.substring_char(0, n))
    }
}

/// The first line of `s`, as `s.lines().next().unwrap_or("")` gives it:
/// the text up to the first `'\n'`, without a `'\r'` just before that
/// `'\n'`.
pub open spec fn spec_first_line(s: Seq<char>) -> Seq<char> {
    match find_char(s, '\n') {
        Some(k) => {
            let line = s.take(k);
            if line.len() > 0 && line.last() == '\r' {
                line.drop_last()
            } else {
                line
            }
        },
        None => s,
    }
}

/// Returns the first line of `s`.
pub fn first_line(s: &str) -> (t: &str)
    ensures
        t@ == spec_first_line(s@),
{
    let chars = chars_of(s);
    let n = chars.len();
    let mut i: usize = 0;
    while i < n && chars[i] != '\n'
        invariant
            chars@ == s@,
            n == s@.len(),
            i <= n,
            forall|j: int| 0 <= j < i ==> s@[j] != '\n',
        decreases n - i,
    {
        i = i + 1;
    }
    if i == n {
        proof {
            lemma_find_char_none(s@, '\n');
        }
        s.substring_char(0, n)
    } else {
        proof {
            lemma_find_char_at(s@, '\n', i as int);
        }
        if i > 0 && chars[i - 1] == '\r' {
            let t = s.substring_char(0, i - 1);
            proof {
                assert(t@ =~= s@.take(i as int).drop_last());
            }
            t
        } else {
            s.substring_char(0, i)
        }
    }
}

/// Whether `c` is one of `'0'..='9'`.
pub open spec fn is_ascii_digit(c: char) -> bool {
    '0' <= c && c <= '9'
}

/// Whether every character of `s` is an ASCII digit.
pub open spec fn all_ascii_digits(s: Seq<char>) -> bool {
    forall|i: int| 0 <= i < s.len() ==> is_ascii_digit(#[trigger] s[i])
}

/// Whether every character of `s` is an ASCII digit (true for `""`).
pub fn is_all_ascii_digits(s: &str) -> (b: bool)
    ensures
        b == all_ascii_digits(s@),
{
    let chars = chars_of(s);
    let mut i: usize = 0;
    while i < chars.len()
        invariant
            chars@ == s@,
            i <= chars@.len(),
            forall|j: int| 0 <= j < i ==> is_ascii_digit(#[trigger] s@[j]),
        decreases chars@.len() - i,
    {
        if !('0' <= chars[i] && chars[i] <= '9') {
            return false;
        }
        i = i + 1;
    }
    true
}

/// Whether `s` contains the character `c`.
pub fn contains_char(s: &str, c: char) -> (b: bool)
    ensures
        b == s@.contains(c),
{
    let chars = chars_of(s);
    let mut i: usize = 0;
    while i < chars.len()
        invariant
            chars@ == s@,
            i <= chars@.len(),
            forall|j: int| 0 <= j < i ==> s@[j] != c,
        decreases chars@.len() - i,
    {
        if chars[i] == c {
            proof {
                assert(s@[i as int] == c);
            }
            return true;
        }
        i = i + 1;
    }
    false
}


/// The parts of `list` joined with `sep` between consecutive parts.
pub open spec fn seq_join(list: Seq<Seq<char>>, sep: Seq<char>) -> Seq<char>
    decreases list.len(),
{
    if list.len() == 0 {
        Seq::empty()
    } else if list.len() == 1 {
        list[0]
    } else {
        seq_join(list.drop_last(), sep) + sep + list.last()
    }
}

/// Joins `list` with `sep`, as `<[String]>::join` does.
pub fn join(list: &[String], sep: &str) -> (r: String)
    ensures
        r@ == seq_join(string_views(list@), sep@),
{
    let mut r = String::new();
    let ghost views = string_views(list@);
    let mut i: usize = 0;
    while i < list.len()
        invariant
            views == string_views(list@),
            views.len() == list@.len(),
            i <= list@.len(),
            r@ == seq_join(views.take(i as int), sep@),
        decreases list@.len() - i,
    {
        proof {
            assert(views[i as int] == list@[i as int]@);
            assert(views.take(i + 1).drop_last() =~= views.take(i as int));
        }
        if i != 0 {
            r.append(sep);
        }
        r.append(list[i].as_str());
        proof {
            if i == 0 {
                assert(r@ =~= views.take(1)[0]);
            }
        }
        i = i + 1;
    }
    proof {
        assert(views.take(list@.len() as int) =~= views);
    }
    r
}


/// Whether `p` occurs in `s` at index `i`.
pub open spec fn occurs_at(s: Seq<char>, p: Seq<char>, i: int) -> bool {
    0 <= i && i + p.len() <= s.len() && s.subrange(i, i + p.len()) == p
}

/// Index of the first occurrence of `p` in `s`, as `str::find` gives it
/// (counted in characters).
pub open spec fn find_str(s: Seq<char>, p: Seq<char>) -> Option<int>
    decreases s.len(),
{
    if s.len() < p.len() {
        None
    } else if s.take(p.len() as int) == p {
        Some(0)
    } else if s.len() == 0 {
        None
    } else {
        match find_str(s.drop_first(), p) {
            Some(k) => Some(k + 1),
            None => None,
        }
    }
}

pub proof fn lemma_occurs_shift(s: Seq<char>, p: Seq<char>, i: int)
    requires
        s.len() > 0,
        1 <= i,
    ensures
        occurs_at(s, p, i) == occurs_at(s.drop_first(), p, i - 1),
{
    if i + p.len() <= s.len() {
        assert(s.subrange(i, i + p.len()) =~= s.drop_first().subrange(i - 1, i - 1 + p.len()));
    }
}

pub proof fn lemma_find_str(s: Seq<char>, p: Seq<char>)
    ensures
        find_str(s, p) matches Some(k) ==> occurs_at(s, p, k) && forall|j: int|
            0 <= j < k ==> !occurs_at(s, p, j),
        find_str(s, p) is None ==> forall|j: int| 0 <= j ==> !occurs_at(s, p, j),
    decreases s.len(),
{
    if s.len() < p.len() {
    } else if s.take(p.len() as int) == p {
        assert(s.subrange(0, p.len() as int) == s.take(p.len() as int));
    } else if s.len() == 0 {
        assert(p.len() == 0);
        assert(s.take(0) =~= p);
    } else {
        lemma_find_str(s.drop_first(), p);
        assert(!occurs_at(s, p, 0)) by {
            assert(s.subrange(0, p.len() as int) == s.take(p.len() as int));
        }
        assert forall|j: int| 1 <= j implies occurs_at(s, p, j) == occurs_at(
            s.drop_first(),
            p,
            j - 1,
        ) by {
            lemma_occurs_shift(s, p, j);
        }
    }
}

pub proof fn lemma_find_str_at(s: Seq<char>, p: Seq<char>, k: int)
    requires
        occurs_at(s, p, k),
        forall|j: int| 0 <= j < k ==> !occurs_at(s, p, j),
    ensures
        find_str(s, p) == Some(k),
{
    lemma_find_str(s, p);
    match find_str(s, p) {
        Some(k2) => {
            if k2 < k {
            } else if k < k2 {
            }
        },
        None => {},
    }
}

/// Whether `p` occurs in `chars` at `i`.
fn occurs_at_exec(chars: &Vec<char>, p: &Vec<char>, i: usize) -> (b: bool)
    requires
        i + p@.len() <= chars@.len(),
    ensures
        b == occurs_at(chars@, p@, i as int),
{
    let n = chars.len();
    let mut j: usize = 0;
    while j < p.len()
        invariant
            n == chars@.len(),
            i + p@.len() <= chars@.len(),
            j <= p@.len(),
            forall|t: int| 0 <= t < j ==> chars@[i + t] == p@[t],
        decreases p@.len() - j,
    {
        if chars[i + j] != p[j] {
            proof {
                assert(chars@.subrange(i as int, i + p@.len())[j as int] != p@[j as int]);
            }
            return false;
        }
        j = j + 1;
    }
    proof {
        assert(chars@.subrange(i as int, i + p@.len()) =~= p@);
    }
    true
}

/// Index (in characters) of the first occurrence of `p` in `chars`.
pub fn find_in(chars: &Vec<char>, p: &str) -> (r: Option<usize>)
    ensures
        r matches Some(k) ==> find_str(chars@, p@) == Some(k as int),
        r is None ==> find_str(chars@, p@) is None,
{
    let pc = chars_of(p);
    proof {
        lemma_find_str(chars@, p@);
    }
    if pc.len() > chars.len() {
        return None;
    }
    let n = chars.len();
    let m = pc.len();
    if m == 0 {
        proof {
            assert(chars@.subrange(0, 0) =~= p@);
            lemma_find_str_at(chars@, p@, 0);
        }
        return Some(0);
    }
    let mut i: usize = 0;
    while i <= n - m
        invariant
            pc@ == p@,
            n == chars@.len(),
            m == pc@.len(),
            0 < m <= n,
            i <= n - m + 1,
            forall|j: int| 0 <= j < i ==> !occurs_at(chars@, p@, j),
        decreases n - m + 1 - i,
    {
        if occurs_at_exec(chars, &pc, i) {
            proof {
                lemma_find_str_at(chars@, p@, i as int);
            }
            return Some(i);
        }
        i = i + 1;
    }
    proof {
        assert forall|j: int| 0 <= j implies !occurs_at(chars@, p@, j) by {
            if j >= i {
                assert(j + p@.len() > chars@.len());
            }
        }
        lemma_find_str(chars@, p@);
    }
    None
}


/// `String::push`: appends `c` to `s`; the contract claims that the
/// characters of `s` grow by exactly `c` at the end.
#[verifier::external_body]
pub(crate) fn push_char(s: &mut String, c: char)
    ensures
        final(s)@ == old(s)@.push(c),
{
    s.push(c)
}


/// The name for what `str::to_lowercase` returns for a string with these
/// characters: the Unicode lowercase mapping, which is locale-independent
/// but may look at neighbouring characters (a final sigma).
pub uninterp spec fn spec_lowercase(s: Seq<char>) -> Seq<char>;

/// `str::to_lowercase`: the contract claims only that the result is
/// `spec_lowercase` of the characters of `s` (the same characters give the
/// same result); the Unicode mapping itself is left unstated.
#[verifier::external_body]
pub(crate) fn to_lowercase(s: &str) -> (r: String)
    ensures
        r@ == spec_lowercase(s@),
{
    s.to_lowercase()
}

/// Whether `list` holds a string equal to `s`.
pub fn contains_str(list: &[String], s: &str) -> (b: bool)
    ensures
        b == string_views(list@).contains(s@),
{
    let mut i: usize = 0;
    while i < list.len()
        invariant
            i <= list@.len(),
            forall|j: int| 0 <= j < i ==> list@[j]@ != s@,
        decreases list@.len() - i,
    {
        if str_eq(list[i].as_str(), s) {
            proof {
                assert(string_views(list@)[i as int] == s@);
            }
            return true;
        }
        i = i + 1;
    }
    proof {
        if string_views(list@).contains(s@) {
            let j = choose|j: int| 0 <= j < string_views(list@).len() && string_views(list@)[j] == s@;
            assert(list@[j]@ == s@);
        }
    }
    false
}

} // verus!
