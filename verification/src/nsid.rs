//! Namespace identifiers (NSIDs) and their two-segment prefix.

use vstd::prelude::*;
use vstd::string::*;

verus! {

/// The characters of `s` up to (not including) its `(allowed + 1)`-th dot.
/// With `allowed == 1` this keeps everything before the second `'.'`.
pub open spec fn take_before_dot(s: Seq<char>, allowed: nat) -> Seq<char>
    decreases s.len(),
{
    if s.len() == 0 {
        s
    } else if s[0] == '.' {
        if allowed == 0 {
            Seq::<char>::empty()
        } else {
            seq!['.'] + take_before_dot(s.drop_first(), (allowed - 1) as nat)
        }
    } else {
        seq![s[0]] + take_before_dot(s.drop_first(), allowed)
    }
}

/// The prefix of an NSID that names its application: the first two
/// dot-separated segments joined by a dot (`"app.bsky.feed.post"` gives
/// `"app.bsky"`). An NSID with fewer than two segments is its own prefix.
pub open spec fn nsid_prefix(nsid: Seq<char>) -> Seq<char> {
    take_before_dot(nsid, 1)
}

proof fn lemma_take_before_dot_prefix(s: Seq<char>, allowed: nat)
    ensures
        take_before_dot(s, allowed).len() <= s.len(),
        take_before_dot(s, allowed) =~= s.take(take_before_dot(s, allowed).len() as int),
    decreases s.len(),
{
    if s.len() > 0 {
        if s[0] == '.' {
            if allowed > 0 {
                lemma_take_before_dot_prefix(s.drop_first(), (allowed - 1) as nat);
            }
        } else {
            lemma_take_before_dot_prefix(s.drop_first(), allowed);
        }
    }
}

/// Scanning: the part already scanned is kept whole, the rest is cut.
proof fn lemma_take_before_dot_step(s: Seq<char>, i: int, allowed: nat)
    requires
        0 <= i < s.len(),
    ensures
        take_before_dot(s.skip(i), allowed) == (if s[i] == '.' {
            if allowed == 0 {
                Seq::<char>::empty()
            } else {
                seq!['.'] + take_before_dot(s.skip(i + 1), (allowed - 1) as nat)
            }
        } else {
            seq![s[i]] + take_before_dot(s.skip(i + 1), allowed)
        }),
{
    assert(s.skip(i).drop_first() =~= s.skip(i + 1));
    assert(s.skip(i)[0] == s[i]);
}

/// Returns the application prefix of `nsid` (see [`nsid_prefix`]).
pub fn extract_nsid_prefix(nsid: &str) -> (prefix: String)
    ensures
        prefix@ == nsid_prefix(nsid@),
{
    let n = nsid.unicode_len();
    let mut i: usize = 0;
    let mut dots: usize = 0;
    let ghost s = nsid@;
    assert(s.skip(0) =~= s);
    while i < n
        invariant
            n == s.len(),
            s == nsid@,
            i <= n,
            dots <= 1,
            nsid_prefix(s) == s.take(i as int) + take_before_dot(s.skip(i as int), (1 - dots) as nat),
        ensures
            i <= n,
            nsid_prefix(s) == s.take(i as int),
        decreases n - i,
    {
        let c = nsid.get_char(i);
        proof {
            lemma_take_before_dot_step(s, i as int, (1 - dots) as nat);
        }
        if c == '.' {
            if dots == 1 {
                assert(s.take(i as int) + Seq::<char>::empty() =~= s.take(i as int));
                break;
            }
            dots = 1;
        }
        assert(s.take(i as int) + seq![s[i as int]] =~= s.take(i + 1));
        i = i + 1;
        if i == n {
            assert(s.skip(n as int) =~= Seq::<char>::empty());
            assert(s.take(n as int) + Seq::<char>::empty() =~= s.take(n as int));
        }
    }
    let out = nsid.substring_char(0, i);
    String::from_str(out)
}


proof fn lemma_take_before_dot_idempotent(s: Seq<char>, allowed: nat)
    ensures
        take_before_dot(take_before_dot(s, allowed), allowed) == take_before_dot(s, allowed),
    decreases s.len(),
{
    if s.len() > 0 {
        let r = take_before_dot(s, allowed);
        if s[0] == '.' {
            if allowed > 0 {
                let inner = take_before_dot(s.drop_first(), (allowed - 1) as nat);
                lemma_take_before_dot_idempotent(s.drop_first(), (allowed - 1) as nat);
                assert(r.drop_first() =~= inner);
                assert(r[0] == '.');
            } else {
                assert(r.len() == 0);
            }
        } else {
            let inner = take_before_dot(s.drop_first(), allowed);
            lemma_take_before_dot_idempotent(s.drop_first(), allowed);
            assert(r.drop_first() =~= inner);
            assert(r[0] == s[0]);
        }
    }
}

/// The application prefix is a leading part of the NSID.
pub proof fn law_prefix_is_leading_part(nsid: Seq<char>)
    ensures
        nsid_prefix(nsid).len() <= nsid.len(),
        nsid_prefix(nsid) == nsid.take(nsid_prefix(nsid).len() as int),
{
    lemma_take_before_dot_prefix(nsid, 1);
}

/// The application prefix of an application prefix is itself: a prefix
/// names its own group.
pub proof fn law_prefix_idempotent(nsid: Seq<char>)
    ensures
        nsid_prefix(nsid_prefix(nsid)) == nsid_prefix(nsid),
{
    lemma_take_before_dot_idempotent(nsid, 1);
}

/// The number of dots in `s`.
pub open spec fn dot_count(s: Seq<char>) -> nat
    decreases s.len(),
{
    if s.len() == 0 {
        0
    } else {
        (if s[0] == '.' { 1nat } else { 0nat }) + dot_count(s.drop_first())
    }
}

proof fn lemma_contains_dot(s: Seq<char>)
    requires
        s.contains('.'),
    ensures
        dot_count(s) >= 1,
    decreases s.len(),
{
    if s[0] != '.' {
        let i = choose|i: int| 0 <= i < s.len() && s[i] == '.';
        assert(s.drop_first()[i - 1] == '.');
        lemma_contains_dot(s.drop_first());
    }
}

/// Cutting before the `(allowed + 1)`-th dot is not affected by what
/// follows a dot after a part that already holds `allowed` dots.
proof fn lemma_take_before_dot_append(s: Seq<char>, t: Seq<char>, allowed: nat)
    requires
        dot_count(s) >= allowed,
        t.len() > 0,
        t[0] == '.',
    ensures
        take_before_dot(s + t, allowed) == take_before_dot(s, allowed),
    decreases s.len(),
{
    if s.len() == 0 {
        assert(s + t =~= t);
    } else {
        assert((s + t).drop_first() =~= s.drop_first() + t);
        assert((s + t)[0] == s[0]);
        if s[0] == '.' {
            if allowed > 0 {
                lemma_take_before_dot_append(s.drop_first(), t, (allowed - 1) as nat);
            }
        } else {
            lemma_take_before_dot_append(s.drop_first(), t, allowed);
        }
    }
}

/// Appending a segment to a name of two or more segments leaves its
/// application prefix unchanged: `app.bsky.feed` and `app.bsky.feed.post`
/// belong to the same application.
pub proof fn law_prefix_stable_under_extension(nsid: Seq<char>, segment: Seq<char>)
    requires
        nsid.contains('.'),
    ensures
        nsid_prefix(nsid + seq!['.'] + segment) == nsid_prefix(nsid),
{
    lemma_contains_dot(nsid);
    let t = seq!['.'] + segment;
    assert(nsid + seq!['.'] + segment =~= nsid + t);
    lemma_take_before_dot_append(nsid, t, 1);
}

} // verus!
