//! Character classification and small text algorithms shared by the
//! credential store and the session state machine.

use vstd::prelude::*;

verus! {

/// A Unicode control character (category Cc): the characters a line-based
/// read can leave behind, such as a trailing carriage return or line feed.
pub open spec fn is_ctl_char(c: char) -> bool {
    (c as u32) < 0x20 || (0x7f <= (c as u32) && (c as u32) < 0xa0)
}

/// Executable form of [`is_ctl_char`].
pub fn is_control_char(c: char) -> (r: bool)
    ensures
        r == is_ctl_char(c),
{
    let u = c as u32;
    u < 0x20 || (0x7f <= u && u < 0xa0)
}

/// The input with every control character removed.
pub open spec fn strip_ctl(s: Seq<char>) -> Seq<char> {
    s.filter(|c: char| !is_ctl_char(c))
}

/// Stripping distributes over appending one character: a control character
/// vanishes, any other character survives at the end.
pub proof fn lemma_strip_push(s: Seq<char>, c: char)
    ensures
        strip_ctl(s.push(c)) == if is_ctl_char(c) {
            strip_ctl(s)
        } else {
            strip_ctl(s).push(c)
        },
{
    reveal(Seq::filter);
    assert(s.push(c).drop_last() =~= s);
}

/// Removes every control character from a string, one character at a time.
pub fn strip_controls(s: &str) -> (r: Vec<char>)
    ensures
        r@ == strip_ctl(s@),
{
    let n = s.unicode_len();
    let mut out: Vec<char> = Vec::new();
    let mut i: usize = 0;
    while i < n
        invariant
            n == s@.len(),
            0 <= i <= n,
            out@ == strip_ctl(s@.subrange(0, i as int)),
        decreases n - i,
    {
        let c = s.get_char(i);
        proof {
            assert(s@.subrange(0, i + 1 as int) =~= s@.subrange(0, i as int).push(s@[i as int]));
            lemma_strip_push(s@.subrange(0, i as int), s@[i as int]);
        }
        if !is_control_char(c) {
            out.push(c);
        }
        i = i + 1;
    }
    proof {
        assert(s@.subrange(0, n as int) =~= s@);
    }
    out
}

/// A Unicode whitespace character (the White_Space property), as the
/// standard library's trimming understands it.
pub open spec fn is_ws_char(c: char) -> bool {
    let u = c as u32;
    (0x9 <= u && u <= 0xd) || u == 0x20 || u == 0x85 || u == 0xa0 || u == 0x1680 || (0x2000 <= u
        && u <= 0x200a) || u == 0x2028 || u == 0x2029 || u == 0x202f || u == 0x205f || u == 0x3000
}

/// Executable form of [`is_ws_char`].
pub fn is_whitespace_char(c: char) -> (r: bool)
    ensures
        r == is_ws_char(c),
{
    let u = c as u32;
    (0x9 <= u && u <= 0xd) || u == 0x20 || u == 0x85 || u == 0xa0 || u == 0x1680 || (0x2000 <= u
        && u <= 0x200a) || u == 0x2028 || u == 0x2029 || u == 0x202f || u == 0x205f || u == 0x3000
}

/// The input without its leading whitespace.
pub open spec fn trim_start_spec(s: Seq<char>) -> Seq<char>
    decreases s.len(),
{
    if s.len() > 0 && is_ws_char(s[0]) {
        trim_start_spec(s.drop_first())
    } else {
        s
    }
}

/// The input without its trailing whitespace.
pub open spec fn trim_end_spec(s: Seq<char>) -> Seq<char>
    decreases s.len(),
{
    if s.len() > 0 && is_ws_char(s.last()) {
        trim_end_spec(s.drop_last())
    } else {
        s
    }
}

/// The input without leading or trailing whitespace.
pub open spec fn trim_spec(s: Seq<char>) -> Seq<char> {
    trim_end_spec(trim_start_spec(s))
}

/// Identifies [`trim_start_spec`] with the subrange that starts at the
/// first non-whitespace position.
proof fn lemma_trim_start_bound(s: Seq<char>, a: int)
    requires
        0 <= a <= s.len(),
        forall|i: int| 0 <= i < a ==> is_ws_char(s[i]),
        a == s.len() || !is_ws_char(s[a]),
    ensures
        trim_start_spec(s) == s.subrange(a, s.len() as int),
    decreases a,
{
    if a == 0 {
        assert(s.subrange(0, s.len() as int) =~= s);
    } else {
        assert(s.drop_first() =~= s.subrange(1, s.len() as int));
        lemma_trim_start_bound(s.drop_first(), a - 1);
        assert(s.drop_first().subrange(a - 1, s.drop_first().len() as int) =~= s.subrange(
            a,
            s.len() as int,
        ));
    }
}

/// Identifies [`trim_end_spec`] with the subrange that ends after the last
/// non-whitespace position.
proof fn lemma_trim_end_bound(s: Seq<char>, b: int)
    requires
        0 <= b <= s.len(),
        forall|i: int| b <= i < s.len() ==> is_ws_char(s[i]),
        b == 0 || !is_ws_char(s[b - 1]),
    ensures
        trim_end_spec(s) == s.subrange(0, b),
    decreases s.len(),
{
    if b == s.len() {
        assert(s.subrange(0, b) =~= s);
    } else {
        assert(s.drop_last() =~= s.subrange(0, s.len() - 1));
        lemma_trim_end_bound(s.drop_last(), b);
        assert(s.drop_last().subrange(0, b) =~= s.subrange(0, b));
    }
}

/// Removes leading and trailing whitespace, as the line-oriented protocol
/// reader does before interpreting a line.
pub fn trim_str<'a>(s: &'a str) -> (r: &'a str)
    ensures
        r@ == trim_spec(s@),
{
    let n = s.unicode_len();
    let mut a: usize = 0;
    while a < n && is_whitespace_char(s.get_char(a))
        invariant
            n == s@.len(),
            0 <= a <= n,
            forall|i: int| 0 <= i < a ==> is_ws_char(s@[i]),
        decreases n - a,
    {
        a = a + 1;
    }
    if a == n {
        proof {
            lemma_trim_start_bound(s@, a as int);
            assert(s@.subrange(n as int, n as int) =~= Seq::<char>::empty());
        }
        return s.substring_char(n, n);
    }
    let mut b: usize = n;
    while b > a && is_whitespace_char(s.get_char(b - 1))
        invariant
            n == s@.len(),
            a <= b <= n,
            forall|i: int| b <= i < n ==> is_ws_char(s@[i]),
        decreases b,
    {
        b = b - 1;
    }
    proof {
        lemma_trim_start_bound(s@, a as int);
        let t = s@.subrange(a as int, n as int);
        assert(b == a || !is_ws_char(t[b - a - 1]));
        lemma_trim_end_bound(t, b - a as int);
        assert(t.subrange(0, b - a as int) =~= s@.subrange(a as int, b as int));
    }
    s.substring_char(a, b)
}

/// One character equals another up to ASCII letter case.
pub open spec fn same_letter_ci(a: char, b: char) -> bool {
    a == b || (0x41 <= a as u32 && a as u32 <= 0x5a && b as u32 == a as u32 + 32) || (0x41
        <= b as u32 && b as u32 <= 0x5a && a as u32 == b as u32 + 32)
}

/// Two texts are equal up to ASCII letter case, position by position.
pub open spec fn seq_eq_ci(a: Seq<char>, b: Seq<char>) -> bool {
    a.len() == b.len() && (forall|i: int| 0 <= i < a.len() ==> same_letter_ci(a[i], b[i]))
}

/// ASCII-case-insensitive string equality, used to recognise command verbs.
pub fn str_eq_ci(a: &str, b: &str) -> (r: bool)
    ensures
        r == seq_eq_ci(a@, b@),
{
    let n = a.unicode_len();
    if b.unicode_len() != n {
        return false;
    }
    let mut i: usize = 0;
    while i < n
        invariant
            n == a@.len(),
            n == b@.len(),
            0 <= i <= n,
            forall|j: int| 0 <= j < i ==> same_letter_ci(a@[j], b@[j]),
        decreases n - i,
    {
        let ca = a.get_char(i);
        let cb = b.get_char(i);
        let ua = ca as u32;
        let ub = cb as u32;
        let ok = ua == ub || (0x41 <= ua && ua <= 0x5a && ub == ua + 32) || (0x41 <= ub && ub
            <= 0x5a && ua == ub + 32);
        proof {
            vstd::utf8::char_u32_cast(ca, ua);
            vstd::utf8::char_u32_cast(cb, ub);
        }
        if !ok {
            return false;
        }
        i = i + 1;
    }
    true
}

/// Splits a trimmed line into its command verb (up to the first space) and
/// the remainder after that space, the single argument string.
pub open spec fn split_verb(t: Seq<char>) -> (Seq<char>, Seq<char>)
    decreases t.len(),
{
    if t.len() == 0 {
        (Seq::empty(), Seq::empty())
    } else if t[0] == ' ' {
        (Seq::empty(), t.drop_first())
    } else {
        let rest = split_verb(t.drop_first());
        (seq![t[0]] + rest.0, rest.1)
    }
}

/// Identifies [`split_verb`] with the subranges around the first space.
proof fn lemma_split_verb_at(t: Seq<char>, k: int)
    requires
        0 <= k <= t.len(),
        forall|i: int| 0 <= i < k ==> t[i] != ' ',
        k == t.len() || t[k] == ' ',
    ensures
        split_verb(t).0 == t.subrange(0, k),
        split_verb(t).1 == if k == t.len() {
            Seq::<char>::empty()
        } else {
            t.subrange(k + 1, t.len() as int)
        },
    decreases k,
{
    if k == 0 {
        assert(t.subrange(0, 0) =~= Seq::<char>::empty());
        if t.len() > 0 && t[0] == ' ' {
            assert(t.drop_first() =~= t.subrange(1, t.len() as int));
        }
    } else {
        let d = t.drop_first();
        assert(d =~= t.subrange(1, t.len() as int));
        lemma_split_verb_at(d, k - 1);
        assert(seq![t[0]] + d.subrange(0, k - 1) =~= t.subrange(0, k));
        if k < t.len() {
            assert(d.subrange(k, d.len() as int) =~= t.subrange(k + 1, t.len() as int));
        }
    }
}

/// Splits a trimmed command line at its first space: the verb, then the
/// argument (empty when there is no space).
pub fn split_command<'a>(t: &'a str) -> (r: (&'a str, &'a str))
    ensures
        (r.0@, r.1@) == split_verb(t@),
{
    let n = t.unicode_len();
    let mut k: usize = 0;
    while k < n && t.get_char(k) != ' '
        invariant
            n == t@.len(),
            0 <= k <= n,
            forall|i: int| 0 <= i < k ==> t@[i] != ' ',
        decreases n - k,
    {
        k = k + 1;
    }
    proof {
        lemma_split_verb_at(t@, k as int);
    }
    if k == n {
        let empty = t.substring_char(n, n);
        proof {
            assert(t@.subrange(n as int, n as int) =~= Seq::<char>::empty());
        }
        (t.substring_char(0, k), empty)
    } else {
        (t.substring_char(0, k), t.substring_char(k + 1, n))
    }
}

/// True when the characters of `v` are exactly the characters of `s`.
pub fn chars_eq_str(v: &Vec<char>, s: &str) -> (r: bool)
    ensures
        r == (v@ == s@),
{
    let n = s.unicode_len();
    if v.len() != n {
        proof {
            assert(v@.len() != s@.len());
        }
        return false;
    }
    let mut i: usize = 0;
    while i < n
        invariant
            n == s@.len(),
            v@.len() == n,
            0 <= i <= n,
            forall|j: int| 0 <= j < i ==> v@[j] == s@[j],
        decreases n - i,
    {
        if v[i] != s.get_char(i) {
            return false;
        }
        i = i + 1;
    }
    proof {
        assert(v@ =~= s@);
    }
    true
}

} // verus!
