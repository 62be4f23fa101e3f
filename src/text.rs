use vstd::prelude::*;
use vstd::string::{StrSliceExecFns, StringExecFns};

verus! {

broadcast use vstd::string::group_string_axioms;

/// The journey status reported when a package is created.
pub open spec fn journey_status(destination: Seq<char>, speed: Seq<char>) -> Seq<char> {
    "Package en route to "@ + destination + " with "@ + speed
}

/// The tracking sentence reported for a stored package.
pub open spec fn tracking_sentence(current_location: Seq<char>, destination: Seq<char>) -> Seq<
    char,
> {
    "Package is currently at "@ + current_location + " en route to "@ + destination
}

/// The human-readable status of a new delivery to `destination` at `speed`.
pub fn simulate_journey(destination: &str, speed: &str) -> (r: String)
    ensures
        r@ == journey_status(destination@, speed@),
{
    let mut s = String::from_str("Package en route to ");
    s.append(destination);
    s.append(" with ");
    s.append(speed);
    s
}

/// The tracking sentence for a package at `current_location` bound for `destination`.
pub fn tracking_info(current_location: &str, destination: &str) -> (r: String)
    ensures
        r@ == tracking_sentence(current_location@, destination@),
{
    let mut s = String::from_str("Package is currently at ");
    s.append(current_location);
    s.append(" en route to ");
    s.append(destination);
    s
}

/// The characters of `s`, in order.
pub fn chars_of(s: &str) -> (r: Vec<char>)
    ensures
        r@ == s@,
{
    let mut out: Vec<char> = Vec::new();
    for c in it: s.chars()
        invariant
            it.seq() == s@,
            out@ == it.seq().take(it.index() as int),
    {
        out.push(c);
    }
    assert(out@ =~= s@);
    out
}

/// The code of `c` with ASCII upper-case letters folded to lower case.
pub open spec fn ascii_folded(c: char) -> u32 {
    if 'A' <= c <= 'Z' {
        (c as u32 + 32) as u32
    } else {
        c as u32
    }
}

/// `a` and `b` spell the same text once ASCII letter case is ignored.
pub open spec fn same_ignoring_ascii_case(a: Seq<char>, b: Seq<char>) -> bool {
    &&& a.len() == b.len()
    &&& forall|i: int| 0 <= i < a.len() ==> ascii_folded(#[trigger] a[i]) == ascii_folded(b[i])
}

fn fold_char(c: char) -> (r: u32)
    ensures
        r == ascii_folded(c),
{
    if 'A' <= c && c <= 'Z' {
        c as u32 + 32
    } else {
        c as u32
    }
}

/// Whether `a` and `b` are equal up to ASCII letter case.
pub fn eq_ignoring_ascii_case(a: &str, b: &str) -> (r: bool)
    ensures
        r == same_ignoring_ascii_case(a@, b@),
{
    let x = chars_of(a);
    let y = chars_of(b);
    if x.len() != y.len() {
        return false;
    }
    let mut i: usize = 0;
    while i < x.len()
        invariant
            x@ == a@,
            y@ == b@,
            x@.len() == y@.len(),
            i <= x@.len(),
            forall|j: int| 0 <= j < i ==> ascii_folded(#[trigger] x@[j]) == ascii_folded(y@[j]),
        decreases x@.len() - i,
    {
        if fold_char(x[i]) != fold_char(y[i]) {
            return false;
        }
        i = i + 1;
    }
    true
}

/// Whether `a` and `b` are the same text.
pub fn same_text(a: &str, b: &str) -> (r: bool)
    ensures
        r == (a@ == b@),
{
    let x = chars_of(a);
    let y = chars_of(b);
    if x.len() != y.len() {
        return false;
    }
    let mut i: usize = 0;
    while i < x.len()
        invariant
            x@ == a@,
            y@ == b@,
            x@.len() == y@.len(),
            i <= x@.len(),
            forall|j: int| 0 <= j < i ==> x@[j] == y@[j],
        decreases x@.len() - i,
    {
        if x[i] != y[i] {
            return false;
        }
        i = i + 1;
    }
    assert(x@ =~= y@);
    true
}

/// The rest of `path` after `prefix`, when that rest is one non-empty path
/// segment.
pub open spec fn segment_after(path: Seq<char>, prefix: Seq<char>) -> Option<Seq<char>> {
    let rest = path.skip(prefix.len() as int);
    if prefix.len() < path.len() && path.take(prefix.len() as int) == prefix && !rest.contains(
        '/',
    ) {
        Some(rest)
    } else {
        None
    }
}

/// The path segment that follows `prefix` in `path`, if `path` is `prefix`
/// and then exactly one non-empty segment.
pub fn segment_following(path: &str, prefix: &str) -> (r: Option<String>)
    ensures
        match segment_after(path@, prefix@) {
            Some(seg) => r is Some && r->0@ == seg,
            None => r is None,
        },
{
    let p = chars_of(path);
    let q = chars_of(prefix);
    if q.len() >= p.len() {
        return None;
    }
    let mut i: usize = 0;
    while i < q.len()
        invariant
            p@ == path@,
            q@ == prefix@,
            q@.len() < p@.len(),
            i <= q@.len(),
            forall|j: int| 0 <= j < i ==> p@[j] == q@[j],
        decreases q@.len() - i,
    {
        if p[i] != q[i] {
            assert(path@.take(prefix@.len() as int)[i as int] != prefix@[i as int]);
            return None;
        }
        i = i + 1;
    }
    assert(path@.take(prefix@.len() as int) =~= prefix@);
    let mut k: usize = q.len();
    while k < p.len()
        invariant
            p@ == path@,
            q@ == prefix@,
            q@.len() <= k <= p@.len(),
            forall|j: int| q@.len() <= j < k ==> p@[j] != '/',
        decreases p@.len() - k,
    {
        if p[k] == '/' {
            assert(path@.skip(prefix@.len() as int)[k - prefix@.len()] == '/');
            return None;
        }
        k = k + 1;
    }
    let ghost rest = path@.skip(prefix@.len() as int);
    assert(!rest.contains('/')) by {
        assert forall|j: int| 0 <= j < rest.len() implies rest[j] != '/' by {
            assert(rest[j] == p@[j + q@.len()]);
        }
    }
    let seg = path.substring_char(q.len(), p.len());
    assert(seg@ =~= rest);
    Some(String::from_str(seg))
}

} // verus!
