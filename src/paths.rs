//! Paths as text: `/` separates components.

use vstd::prelude::*;
use vstd::string::*;
use crate::text::{cat, decimal, decimal_string, str_eq};

verus! {

/// `p` read relative to `base`: `p` itself when it is absolute or `base` is empty.
pub open spec fn joined(base: Seq<char>, p: Seq<char>) -> Seq<char> {
    if p.len() > 0 && p[0] == '/' {
        p
    } else if base.len() == 0 {
        p
    } else if base[base.len() - 1] == '/' {
        base + p
    } else {
        base + seq!['/'] + p
    }
}

/// Where the run of separators that starts at position `i` of `s` ends.
pub open spec fn after_separators(s: Seq<char>, i: int) -> int
    decreases s.len() - i,
{
    if 0 <= i < s.len() && s[i] == '/' {
        after_separators(s, i + 1)
    } else {
        i
    }
}

/// Whether the components of `prefix` are the leading components of `file`.
pub open spec fn lies_under(file: Seq<char>, prefix: Seq<char>) -> bool {
    let q = without_trailing(prefix);
    &&& prefix.len() > 0
    &&& file.len() >= q.len()
    &&& file.subrange(0, q.len() as int) == q
    &&& (file.len() == q.len() || file[q.len() as int] == '/' || q[q.len() - 1] == '/')
}

/// `file` with the leading components that make up `prefix` taken off, along with the
/// separators that follow them; `file` itself when it does not lie under `prefix`.
pub open spec fn stripped(file: Seq<char>, prefix: Seq<char>) -> Seq<char> {
    if lies_under(file, prefix) {
        file.subrange(
            after_separators(file, without_trailing(prefix).len() as int),
            file.len() as int,
        )
    } else {
        file
    }
}

/// The length of `p.subrange(0, n)` once its trailing separators are dropped.
pub open spec fn trimmed_len(p: Seq<char>, n: int) -> int
    decreases n,
{
    if n > 0 && p[n - 1] == '/' {
        trimmed_len(p, n - 1)
    } else {
        n
    }
}

proof fn lemma_trimmed_bounds(p: Seq<char>, n: int)
    requires
        0 <= n,
    ensures
        0 <= trimmed_len(p, n) <= n,
    decreases n,
{
    if n > 0 && p[n - 1] == '/' {
        lemma_trimmed_bounds(p, n - 1);
    }
}

/// Where the component that ends at `n` starts.
pub open spec fn component_start(p: Seq<char>, n: int) -> int
    decreases n,
{
    if n > 0 && p[n - 1] != '/' {
        component_start(p, n - 1)
    } else {
        n
    }
}

/// The last component of `p`, when it names a file or directory (not `.` or `..`).
pub open spec fn final_name(p: Seq<char>) -> Option<Seq<char>> {
    let e = trimmed_len(p, p.len() as int);
    let name = p.subrange(component_start(p, e), e);
    if name.len() == 0 || name == seq!['.'] || name == seq!['.', '.'] {
        None
    } else {
        Some(name)
    }
}

/// `p` with `suffix` added to its file name, in the same directory.
pub open spec fn suffixed(p: Seq<char>, suffix: Seq<char>) -> Seq<char> {
    without_trailing(p) + suffix
}

/// The numbered backup of `p` with index `n`: its file name followed by `.~<n>~`, in the same
/// directory.
pub open spec fn numbered(p: Seq<char>, n: nat) -> Seq<char> {
    without_trailing(p) + seq!['.', '~'] + decimal(n) + seq!['~']
}

/// `p` read relative to `base`.
pub fn join(base: &str, p: &str) -> (r: String)
    ensures
        r@ == joined(base@, p@),
{
    let bn = base.unicode_len();
    let pn = p.unicode_len();
    if pn > 0 && p.get_char(0) == '/' {
        p.to_owned()
    } else if bn == 0 {
        p.to_owned()
    } else if base.get_char(bn - 1) == '/' {
        cat(base, p)
    } else {
        let with_sep = cat(base, "/");
        proof {
            reveal_strlit("/");
        }
        let r = cat(with_sep.as_str(), p);
        assert(r@ =~= base@ + seq!['/'] + p@);
        r
    }
}

/// `file` rendered relative to `prefix`, or unchanged when it does not lie under it.
pub fn strip_prefix(file: &str, prefix: &str) -> (r: String)
    ensures
        r@ == stripped(file@, prefix@),
{
    let fnn = file.unicode_len();
    let pn = prefix.unicode_len();
    if pn == 0 {
        return file.to_owned();
    }
    let q = trim_separators(prefix);
    let qn = q.as_str().unicode_len();
    proof {
        lemma_trimmed_bounds(prefix@, prefix@.len() as int);
    }
    if fnn < qn || !str_eq(file.substring_char(0, qn), q.as_str()) {
        return file.to_owned();
    }
    if !(fnn == qn || file.get_char(qn) == '/' || q.as_str().get_char(qn - 1) == '/') {
        return file.to_owned();
    }
    let mut k: usize = qn;
    while k < fnn && file.get_char(k) == '/'
        invariant
            fnn == file@.len(),
            qn <= k <= fnn,
            after_separators(file@, qn as int) == after_separators(file@, k as int),
        decreases fnn - k,
    {
        k = k + 1;
    }
    file.substring_char(k, fnn).to_owned()
}

/// The last component of `p`, if it names a file or directory.
pub fn file_name(p: &str) -> (r: Option<String>)
    ensures
        r is Some <==> final_name(p@) is Some,
        r matches Some(name) ==> final_name(p@) == Some(name@),
{
    let n = p.unicode_len();
    let mut e: usize = n;
    while e > 0 && p.get_char(e - 1) == '/'
        invariant
            n == p@.len(),
            e <= n,
            trimmed_len(p@, n as int) == trimmed_len(p@, e as int),
        decreases e,
    {
        e = e - 1;
    }
    let mut s: usize = e;
    while s > 0 && p.get_char(s - 1) != '/'
        invariant
            n == p@.len(),
            s <= e <= n,
            trimmed_len(p@, n as int) == e,
            component_start(p@, e as int) == component_start(p@, s as int),
        decreases s,
    {
        s = s - 1;
    }
    let name = p.substring_char(s, e);
    proof {
        reveal_strlit(".");
        reveal_strlit("..");
    }
    if e == s || str_eq(name, ".") || str_eq(name, "..") {
        assert(".."@ =~= seq!['.', '.']);
        assert("."@ =~= seq!['.']);
        None
    } else {
        assert(".."@ =~= seq!['.', '.']);
        assert("."@ =~= seq!['.']);
        Some(name.to_owned())
    }
}

/// `p` with `suffix` added to its file name.
pub fn add_suffix(p: &str, suffix: &str) -> (r: String)
    ensures
        r@ == suffixed(p@, suffix@),
{
    let base = trim_separators(p);
    cat(base.as_str(), suffix)
}

/// The numbered backup of `p` with index `n`.
pub fn numbered_backup(p: &str, n: u64) -> (r: String)
    ensures
        r@ == numbered(p@, n as nat),
{
    proof {
        reveal_strlit(".~");
        reveal_strlit("~");
    }
    let base = trim_separators(p);
    let a = cat(base.as_str(), ".~");
    let digits = decimal_string(n);
    let b = cat(a.as_str(), digits.as_str());
    let r = cat(b.as_str(), "~");
    assert(".~"@ =~= seq!['.', '~']);
    assert("~"@ =~= seq!['~']);
    r
}

/// The directory that holds the last component of `p`: `.` when `p` has a single component,
/// `/` when that component sits at the root.
pub open spec fn parent_dir(p: Seq<char>) -> Seq<char> {
    let st = component_start(p, trimmed_len(p, p.len() as int));
    let e = trimmed_len(p, st);
    if e > 0 {
        p.subrange(0, e)
    } else if st > 0 {
        seq!['/']
    } else {
        seq!['.']
    }
}

/// The directory that holds the last component of `p`.
pub fn parent(p: &str) -> (r: String)
    ensures
        r@ == parent_dir(p@),
{
    let n = p.unicode_len();
    let mut e: usize = n;
    while e > 0 && p.get_char(e - 1) == '/'
        invariant
            n == p@.len(),
            e <= n,
            trimmed_len(p@, n as int) == trimmed_len(p@, e as int),
        decreases e,
    {
        e = e - 1;
    }
    let mut st: usize = e;
    while st > 0 && p.get_char(st - 1) != '/'
        invariant
            n == p@.len(),
            st <= e <= n,
            trimmed_len(p@, n as int) == e,
            component_start(p@, e as int) == component_start(p@, st as int),
        decreases st,
    {
        st = st - 1;
    }
    let mut k: usize = st;
    while k > 0 && p.get_char(k - 1) == '/'
        invariant
            n == p@.len(),
            k <= st <= n,
            component_start(p@, trimmed_len(p@, n as int)) == st,
            trimmed_len(p@, st as int) == trimmed_len(p@, k as int),
        decreases k,
    {
        k = k - 1;
    }
    proof {
        reveal_strlit("/");
        reveal_strlit(".");
    }
    if k > 0 {
        p.substring_char(0, k).to_owned()
    } else if st > 0 {
        assert("/"@ =~= seq!['/']);
        "/".to_owned()
    } else {
        assert("."@ =~= seq!['.']);
        ".".to_owned()
    }
}

/// `p` without its trailing separators, unless nothing else is left.
pub open spec fn without_trailing(p: Seq<char>) -> Seq<char> {
    if trimmed_len(p, p.len() as int) > 0 {
        p.subrange(0, trimmed_len(p, p.len() as int))
    } else {
        p
    }
}

/// `p` without its trailing separators, unless nothing else is left.
pub fn trim_separators(p: &str) -> (r: String)
    ensures
        r@ == without_trailing(p@),
{
    let n = p.unicode_len();
    let mut e: usize = n;
    while e > 0 && p.get_char(e - 1) == '/'
        invariant
            n == p@.len(),
            e <= n,
            trimmed_len(p@, n as int) == trimmed_len(p@, e as int),
        decreases e,
    {
        e = e - 1;
    }
    if e > 0 {
        p.substring_char(0, e).to_owned()
    } else {
        p.to_owned()
    }
}

/// Whether `p` is `.` or `/`, which always exist.
pub open spec fn is_base(p: Seq<char>) -> bool {
    p == seq!['.'] || p == seq!['/']
}

/// The directories from the outermost one below `.` or `/` down to `p` itself, each holding
/// the next.
pub open spec fn chain_of(p: Seq<char>) -> Seq<Seq<char>>
    decreases p.len(),
{
    let q = parent_dir(p);
    if is_base(q) || q.len() >= p.len() {
        seq![p]
    } else {
        chain_of(q).push(p)
    }
}

/// Each link of a chain is held by the one before it; the first is held by a base directory
/// unless its parent is no shorter than itself; the last is the path itself.
pub proof fn lemma_chain(p: Seq<char>)
    ensures
        chain_of(p).len() >= 1,
        chain_of(p).last() == p,
        forall|k: int| 1 <= k < chain_of(p).len() ==> parent_dir(#[trigger] chain_of(p)[k]) == chain_of(p)[k - 1],
        is_base(parent_dir(chain_of(p)[0])) || parent_dir(chain_of(p)[0]).len() >= chain_of(p)[0].len(),
    decreases p.len(),
{
    let q = parent_dir(p);
    if !(is_base(q) || q.len() >= p.len()) {
        lemma_chain(q);
        let c = chain_of(q);
        assert(chain_of(p) == c.push(p));
        assert forall|k: int| 1 <= k < chain_of(p).len() implies parent_dir(
            #[trigger] chain_of(p)[k],
        ) == chain_of(p)[k - 1] by {
            if k < c.len() {
                assert(chain_of(p)[k] == c[k]);
                assert(chain_of(p)[k - 1] == c[k - 1]);
            } else {
                assert(chain_of(p)[k] == p);
                assert(chain_of(p)[k - 1] == c.last());
            }
        }
        assert(chain_of(p)[0] == c[0]);
    }
}

fn is_base_exec(p: &str) -> (r: bool)
    ensures
        r == is_base(p@),
{
    proof {
        reveal_strlit(".");
        reveal_strlit("/");
    }
    assert("."@ =~= seq!['.']);
    assert("/"@ =~= seq!['/']);
    str_eq(p, ".") || str_eq(p, "/")
}

/// The directories from the outermost one below `.` or `/` down to `p` itself.
pub fn directory_chain(p: &str) -> (r: Vec<String>)
    ensures
        r@.map_values(|s: String| s@) == chain_of(p@),
    decreases p@.len(),
{
    let q = parent(p);
    if is_base_exec(q.as_str()) || q.as_str().unicode_len() >= p.unicode_len() {
        let r = vec![p.to_owned()];
        assert(r@.map_values(|s: String| s@) =~= seq![p@]);
        r
    } else {
        let mut r = directory_chain(q.as_str());
        let ghost before = r@.map_values(|s: String| s@);
        r.push(p.to_owned());
        assert(r@.map_values(|s: String| s@) =~= before.push(p@));
        r
    }
}

} // verus!
