use vstd::prelude::*;
use vstd::string::*;

verus! {

/// Whether `i` is the position of the first occurrence of `c` in `s`.
pub open spec fn is_first(s: Seq<char>, c: char, i: int) -> bool {
    &&& 0 <= i < s.len()
    &&& s[i] == c
    &&& forall|j: int| 0 <= j < i ==> s[j] != c
}

/// Position of the first `c` in `s`, or the length of `s` when it holds none.
pub open spec fn first_index(s: Seq<char>, c: char) -> int {
    if exists|i: int| is_first(s, c, i) {
        choose|i: int| is_first(s, c, i)
    } else {
        s.len() as int
    }
}

/// What stands before the first `'='`: the whole of `s` when it has none.
pub open spec fn head_of(s: Seq<char>) -> Seq<char> {
    s.subrange(0, first_index(s, '='))
}

/// What follows the first `'='`, if there is one.
pub open spec fn rest_of(s: Seq<char>) -> Option<Seq<char>> {
    if first_index(s, '=') < s.len() {
        Some(s.subrange(first_index(s, '=') + 1, s.len() as int))
    } else {
        None
    }
}

/// The piece that follows the first `'='`, up to the next one.
pub open spec fn attached_of(s: Seq<char>) -> Option<Seq<char>> {
    match rest_of(s) {
        Some(r) => Some(head_of(r)),
        None => None,
    }
}

proof fn lemma_first_unique(s: Seq<char>, c: char, i: int)
    requires
        is_first(s, c, i),
    ensures
        first_index(s, c) == i,
{
    let k = choose|k: int| is_first(s, c, k);
    assert(is_first(s, c, k));
    if k < i {
        assert(s[k] != c);
    } else if i < k {
        assert(s[i] != c);
    }
}

proof fn lemma_first_absent(s: Seq<char>, c: char)
    requires
        forall|j: int| 0 <= j < s.len() ==> s[j] != c,
    ensures
        first_index(s, c) == s.len(),
{
    assert(!exists|i: int| is_first(s, c, i));
}

/// Whether two strings hold the same characters.
pub fn str_eq(a: &str, b: &str) -> (r: bool)
    ensures
        r == (a@ == b@),
{
    let n = a.unicode_len();
    if n != b.unicode_len() {
        return false;
    }
    let mut i: usize = 0;
    while i < n
        invariant
            n == a@.len(),
            n == b@.len(),
            i <= n,
            forall|j: int| 0 <= j < i ==> a@[j] == b@[j],
        decreases n - i,
    {
        if a.get_char(i) != b.get_char(i) {
            return false;
        }
        i = i + 1;
    }
    assert(a@ =~= b@);
    true
}

/// The position of the first `c` in `s`, if any.
pub fn find_char(s: &str, c: char) -> (r: Option<usize>)
    ensures
        r matches Some(i) ==> first_index(s@, c) == i && i < s@.len(),
        r is None ==> first_index(s@, c) == s@.len(),
{
    let n = s.unicode_len();
    let mut i: usize = 0;
    while i < n
        invariant
            n == s@.len(),
            i <= n,
            forall|j: int| 0 <= j < i ==> s@[j] != c,
        decreases n - i,
    {
        if s.get_char(i) == c {
            proof {
                lemma_first_unique(s@, c, i as int);
            }
            return Some(i);
        }
        i = i + 1;
    }
    proof {
        lemma_first_absent(s@, c);
    }
    None
}

/// Splits `s` at its first `'='`: what stands before it, and what follows it if it is there.
pub fn split_at_equals(s: &str) -> (r: (String, Option<String>))
    ensures
        r.0@ == head_of(s@),
        r.1 is Some <==> rest_of(s@) is Some,
        r.1 matches Some(t) ==> rest_of(s@) == Some(t@),
{
    let n = s.unicode_len();
    match find_char(s, '=') {
        Some(i) => {
            let head = s.substring_char(0, i).to_owned();
            let rest = s.substring_char(i + 1, n).to_owned();
            (head, Some(rest))
        },
        None => {
            assert(s@.subrange(0, s@.len() as int) =~= s@);
            (s.to_owned(), None)
        },
    }
}

/// The piece that follows the first `'='` of `s`, up to the next one.
pub fn attached_piece(s: &str) -> (r: Option<String>)
    ensures
        r is Some <==> attached_of(s@) is Some,
        r matches Some(t) ==> attached_of(s@) == Some(t@),
{
    let (_, rest) = split_at_equals(s);
    match rest {
        Some(t) => {
            let (h, _) = split_at_equals(t.as_str());
            Some(h)
        },
        None => None,
    }
}

/// `a` followed by `b`.
pub fn cat(a: &str, b: &str) -> (r: String)
    ensures
        r@ == a@ + b@,
{
    let mut s = a.to_owned();
    s.append(b);
    s
}

/// The decimal digits of `n`, most significant first, without leading zeros.
pub open spec fn decimal(n: nat) -> Seq<char>
    decreases n,
{
    if n < 10 {
        seq![digit_char(n)]
    } else {
        decimal(n / 10) + seq![digit_char(n % 10)]
    }
}

/// The character of the digit `d`.
pub open spec fn digit_char(d: nat) -> char {
    (('0' as nat) + d) as char
}

fn digit_str(d: u64) -> (r: &'static str)
    requires
        d < 10,
    ensures
        r@ == seq![digit_char(d as nat)],
{
    let digits = "0123456789";
    proof {
        reveal_strlit("0123456789");
    }
    let r = digits.substring_char(d as usize, d as usize + 1);
    assert(r@ =~= seq![digit_char(d as nat)]);
    r
}

/// `n` written in decimal.
pub fn decimal_string(n: u64) -> (r: String)
    ensures
        r@ == decimal(n as nat),
{
    let mut m: u64 = n;
    let mut out = String::new();
    assert(decimal(n as nat) =~= decimal(m as nat) + out@);
    loop
        invariant
            decimal(n as nat) == decimal(m as nat) + out@,
        decreases m,
    {
        if m < 10 {
            let d = digit_str(m);
            let r = cat(d, out.as_str());
            return r;
        }
        let d = digit_str(m % 10);
        let out2 = cat(d, out.as_str());
        proof {
            assert(decimal(m as nat) == decimal((m / 10) as nat) + seq![digit_char((m % 10) as nat)]);
            assert(decimal(n as nat) =~= decimal((m / 10) as nat) + out2@);
        }
        out = out2;
        m = m / 10;
    }
}

/// The view of an optional string.
pub open spec fn opt_view(o: Option<String>) -> Option<Seq<char>> {
    match o {
        Some(s) => Some(s@),
        None => None,
    }
}

/// A copy of `s`.
pub fn clone_string(s: &String) -> (r: String)
    ensures
        r@ == s@,
{
    s.clone()
}

} // verus!
