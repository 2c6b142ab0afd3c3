//! Slash-separated path arithmetic for the Windows target rewrite.
//!
//! The Windows copy tool pours the *contents* of the source directory into
//! the target directory. To keep the POSIX-visible behaviour — the source
//! directory appears as a subdirectory of the target — the resolver rewrites
//! the target argument to `target / basename(source)`. `basename` is the
//! final path component once trailing separators are ignored; when the
//! source has no final component (a bare root, an empty string) a fixed
//! default subdirectory name is used instead of failing.

use vstd::prelude::*;

verus! {

/// Length of `s` once every trailing `'/'` is removed.
pub open spec fn trimmed_len(s: Seq<char>) -> nat
    decreases s.len(),
{
    if s.len() > 0 && s[s.len() - 1] == '/' {
        trimmed_len(s.drop_last())
    } else {
        s.len()
    }
}

/// Index at which the final path component of `s` begins: one past the last
/// `'/'` of `s`, or `0` when `s` holds none.
pub open spec fn base_start(s: Seq<char>) -> nat
    decreases s.len(),
{
    if s.len() > 0 {
        if s[s.len() - 1] == '/' {
            s.len()
        } else {
            base_start(s.drop_last())
        }
    } else {
        0
    }
}

/// The final path component of `s`: what stands after the last separator
/// once trailing separators are dropped. Empty for `""`, `"/"`, `"///"`.
pub open spec fn basename_of(s: Seq<char>) -> Seq<char> {
    let t = s.subrange(0, trimmed_len(s) as int);
    t.subrange(base_start(t) as int, t.len() as int)
}

/// The subdirectory name placed beneath the target: the basename of the
/// source, or the fixed default `"copy"` when the source has no final
/// component.
pub open spec fn source_subdir(s: Seq<char>) -> Seq<char> {
    if basename_of(s).len() == 0 {
        "copy"@
    } else {
        basename_of(s)
    }
}

/// `target` joined with `name` by a single `'/'`: no separator is doubled
/// when `target` already ends in one, and an empty `target` yields `name`
/// alone.
pub open spec fn joined(target: Seq<char>, name: Seq<char>) -> Seq<char> {
    if target.len() == 0 {
        name
    } else if target[target.len() - 1] == '/' {
        target + name
    } else {
        target + seq!['/'] + name
    }
}

/// The rewritten Windows target argument: `target / basename(source)`, with
/// the fallback name when the source has no final component.
pub open spec fn rewritten_target(source: Seq<char>, target: Seq<char>) -> Seq<char> {
    joined(target, source_subdir(source))
}

/// Target rewriting never fails: a source with a final component lands as
/// that component beneath the target, and a source without one (a bare
/// root, an empty string) falls back to the fixed default subdirectory name
/// instead.
pub proof fn lemma_target_rewriting(source: Seq<char>, target: Seq<char>)
    ensures
        basename_of(source).len() > 0 ==> rewritten_target(source, target) == joined(
            target,
            basename_of(source),
        ),
        basename_of(source).len() == 0 ==> rewritten_target(source, target) == joined(
            target,
            "copy"@,
        ),
{
}

/// Computes `basename(source)` and rewrites the target argument to
/// `target / basename(source)`, falling back to the fixed default
/// subdirectory name when the source has no final component.
pub fn rewrite_target(source: &str, target: &str) -> (r: String)
    ensures
        r@ == rewritten_target(source@, target@),
{
    let n: usize = source.unicode_len();

    // Ignore trailing separators: `t` becomes `trimmed_len(source@)`.
    proof {
        assert(source@.subrange(0, n as int) =~= source@);
    }
    let mut t: usize = n;
    while t > 0 && source.get_char(t - 1) == '/'
        invariant
            t <= n,
            n == source@.len(),
            trimmed_len(source@) == trimmed_len(source@.subrange(0, t as int)),
        decreases t,
    {
        proof {
            let cur = source@.subrange(0, t as int);
            assert(cur.drop_last() =~= source@.subrange(0, t - 1));
        }
        t = t - 1;
    }
    proof {
        let cur = source@.subrange(0, t as int);
        if t > 0 {
            assert(cur[t - 1] != '/');
        }
        assert(trimmed_len(source@) == t);
    }

    // Scan back to the separator before the final component: `b` becomes
    // `base_start` of the trimmed source.
    let ghost trimmed = source@.subrange(0, t as int);
    let mut b: usize = t;
    while b > 0 && source.get_char(b - 1) != '/'
        invariant
            b <= t <= n,
            n == source@.len(),
            trimmed == source@.subrange(0, t as int),
            base_start(trimmed) == base_start(source@.subrange(0, b as int)),
        decreases b,
    {
        proof {
            let cur = source@.subrange(0, b as int);
            assert(cur.drop_last() =~= source@.subrange(0, b - 1));
        }
        b = b - 1;
    }
    proof {
        let cur = source@.subrange(0, b as int);
        if b > 0 {
            assert(cur[b - 1] == '/');
        }
        assert(base_start(trimmed) == b);
        assert(trimmed.subrange(b as int, t as int) =~= source@.subrange(b as int, t as int));
        assert(basename_of(source@) == source@.subrange(b as int, t as int));
    }

    let base: &str = source.substring_char(b, t);
    let sub: &str = if b == t {
        "copy"
    } else {
        base
    };
    proof {
        assert(sub@ == source_subdir(source@));
    }

    // Join the (possibly defaulted) basename onto the target.
    let m: usize = target.unicode_len();
    if m == 0 {
        let r = sub.to_owned();
        proof {
            assert(r@ =~= rewritten_target(source@, target@));
        }
        r
    } else if target.get_char(m - 1) == '/' {
        let mut r = target.to_owned();
        r.append(sub);
        proof {
            assert(r@ =~= rewritten_target(source@, target@));
        }
        r
    } else {
        let mut r = target.to_owned();
        r.append("/");
        r.append(sub);
        proof {
            reveal_strlit("/");
            assert("/"@ =~= seq!['/']);
            assert(r@ =~= rewritten_target(source@, target@));
        }
        r
    }
}

} // verus!
