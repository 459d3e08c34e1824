//! Secure password generation over a configurable character pool.
//!
//! The pool starts with the caller's custom characters, then the enabled
//! standard classes in a fixed order (lowercase, uppercase, digits,
//! symbols). Visually similar characters can be struck from the pool, and
//! an empty pool falls back to the alphanumeric characters, so generation
//! always succeeds. Each output position is drawn from the whole pool with
//! the secure random source.

use vstd::prelude::*;
use rand::RngCore;

verus! {

/// Options of the password generator: the requested length, one toggle per
/// standard character class, a flag that strikes visually similar
/// characters from the pool, and an optional custom alphabet that is
/// prepended to the pool.
#[derive(Debug, Clone)]
pub struct Options {
    pub length: usize,
    pub upper: bool,
    pub lower: bool,
    pub digits: bool,
    pub symbols: bool,
    pub exclude_similar: bool,
    pub custom_chars: Option<String>,
}

impl Default for Options {
    /// 16 characters over all four standard classes.
    fn default() -> (r: Self)
        ensures
            r.length == 16,
            r.upper && r.lower && r.digits && r.symbols,
            !r.exclude_similar,
            r.custom_chars is None,
    {
        Options {
            length: 16,
            upper: true,
            lower: true,
            digits: true,
            symbols: true,
            exclude_similar: false,
            custom_chars: None,
        }
    }
}

pub open spec fn lower_chars() -> Seq<char> {
    "abcdefghijklmnopqrstuvwxyz"@
}

pub open spec fn upper_chars() -> Seq<char> {
    "ABCDEFGHIJKLMNOPQRSTUVWXYZ"@
}

pub open spec fn digit_chars() -> Seq<char> {
    "0123456789"@
}

pub open spec fn symbol_chars() -> Seq<char> {
    "!@#$%^&*()-_=+[]{};:,.<>?/|\\"@
}

/// The fixed denylist of visually ambiguous characters.
pub open spec fn similar_chars() -> Seq<char> {
    "il1Lo0O"@
}

/// The fixed alphanumeric pool used when every toggle is off and no custom
/// characters are supplied: generation never fails for want of a pool.
pub open spec fn fallback_chars() -> Seq<char> {
    lower_chars() + upper_chars() + digit_chars()
}

/// The custom characters of the options, as a sequence; empty when none
/// were supplied.
pub open spec fn custom_of(opts: Options) -> Seq<char> {
    match opts.custom_chars {
        Some(c) => c@,
        None => Seq::empty(),
    }
}

/// The pool before exclusion and fallback: custom characters first, then
/// the enabled standard classes in a fixed order.
pub open spec fn base_pool(opts: Options) -> Seq<char> {
    custom_of(opts) + (if opts.lower {
        lower_chars()
    } else {
        Seq::empty()
    }) + (if opts.upper {
        upper_chars()
    } else {
        Seq::empty()
    }) + (if opts.digits {
        digit_chars()
    } else {
        Seq::empty()
    }) + (if opts.symbols {
        symbol_chars()
    } else {
        Seq::empty()
    })
}

/// The effective pool of the options: the base pool, minus the similar
/// characters when `exclude_similar` is set, replaced by the alphanumeric
/// fallback when that leaves nothing.
pub open spec fn pool_of(opts: Options) -> Seq<char> {
    let kept = if opts.exclude_similar {
        base_pool(opts).filter(|c: char| !similar_chars().contains(c))
    } else {
        base_pool(opts)
    };
    if kept.len() == 0 {
        fallback_chars()
    } else {
        kept
    }
}

/// When every class toggle is off and no custom characters are supplied,
/// the effective pool is exactly the alphanumeric fallback, whatever the
/// similar-character flag says.
pub proof fn lemma_pool_fallback(opts: Options)
    requires
        !opts.lower,
        !opts.upper,
        !opts.digits,
        !opts.symbols,
        opts.custom_chars is None,
    ensures
        pool_of(opts) == fallback_chars(),
{
    assert(base_pool(opts) =~= Seq::<char>::empty());
    if opts.exclude_similar {
        reveal(Seq::filter);
        assert(Seq::<char>::empty().filter(|c: char| !similar_chars().contains(c))
            =~= Seq::<char>::empty());
    }
}

/// The effective pool is never empty.
pub proof fn lemma_pool_nonempty(opts: Options)
    ensures
        pool_of(opts).len() > 0,
{
    if pool_of(opts) == fallback_chars() {
        reveal_strlit("0123456789");
    }
}

/// Relies on `str::chars` collected into a `Vec`: the characters of the
/// string, in order.
#[verifier::external_body]
fn str_chars(s: &str) -> (r: Vec<char>)
    ensures
        r@ == s@,
{
    s.chars().collect()
}

/// Relies on `String`'s `FromIterator` over `char`: the string whose
/// characters are exactly those of the vector, in order.
#[verifier::external_body]
fn chars_to_string(v: &Vec<char>) -> (r: String)
    ensures
        r@ == v@,
{
    v.iter().copied().collect()
}

/// Relies on `rand::RngCore::next_u64` for `rand::rngs::OsRng`: a value
/// from the operating system's secure random source; nothing is assumed of
/// it.
#[verifier::external_body]
fn random_u64() -> u64 {
    rand::rngs::OsRng.next_u64()
}

fn append_chars(dst: &mut Vec<char>, s: &str)
    ensures
        final(dst)@ == old(dst)@ + s@,
{
    let src = str_chars(s);
    let mut i: usize = 0;
    while i < src.len()
        invariant
            0 <= i <= src@.len(),
            src@ == s@,
            dst@ == old(dst)@ + src@.subrange(0, i as int),
        decreases src@.len() - i,
    {
        dst.push(src[i]);
        proof {
            assert(src@.subrange(0, i + 1) =~= src@.subrange(0, i as int).push(src@[i as int]));
        }
        i = i + 1;
    }
    proof {
        assert(src@.subrange(0, src@.len() as int) =~= src@);
    }
}

fn contains_char(v: &Vec<char>, c: char) -> (r: bool)
    ensures
        r == v@.contains(c),
{
    let mut i: usize = 0;
    while i < v.len()
        invariant
            0 <= i <= v@.len(),
            forall|k: int| 0 <= k < i ==> v@[k] != c,
        decreases v@.len() - i,
    {
        if v[i] == c {
            return true;
        }
        i = i + 1;
    }
    false
}

fn retain_not_similar(pool: &Vec<char>) -> (r: Vec<char>)
    ensures
        r@ == pool@.filter(|c: char| !similar_chars().contains(c)),
{
    let similar = str_chars("il1Lo0O");
    let mut kept: Vec<char> = Vec::new();
    let mut i: usize = 0;
    proof {
        reveal(Seq::filter);
        assert(pool@.subrange(0, 0) =~= Seq::<char>::empty());
        assert(Seq::<char>::empty().filter(|c: char| !similar_chars().contains(c))
            =~= Seq::<char>::empty());
    }
    while i < pool.len()
        invariant
            0 <= i <= pool@.len(),
            similar@ == similar_chars(),
            kept@ == pool@.subrange(0, i as int).filter(|c: char| !similar_chars().contains(c)),
        decreases pool@.len() - i,
    {
        let c = pool[i];
        if !contains_char(&similar, c) {
            kept.push(c);
        }
        proof {
            reveal(Seq::filter);
            let prefix = pool@.subrange(0, i as int);
            let next = pool@.subrange(0, i + 1);
            assert(next.drop_last() =~= prefix);
            assert(next.last() == pool@[i as int]);
        }
        i = i + 1;
    }
    proof {
        assert(pool@.subrange(0, pool@.len() as int) =~= pool@);
    }
    kept
}

fn build_pool(opts: &Options) -> (r: Vec<char>)
    ensures
        r@ == pool_of(*opts),
        r@.len() > 0,
{
    let mut pool: Vec<char> = match &opts.custom_chars {
        Some(c) => str_chars(c.as_str()),
        None => Vec::new(),
    };
    if opts.lower {
        append_chars(&mut pool, "abcdefghijklmnopqrstuvwxyz");
    }
    if opts.upper {
        append_chars(&mut pool, "ABCDEFGHIJKLMNOPQRSTUVWXYZ");
    }
    if opts.digits {
        append_chars(&mut pool, "0123456789");
    }
    if opts.symbols {
        append_chars(&mut pool, "!@#$%^&*()-_=+[]{};:,.<>?/|\\");
    }
    proof {
        assert(pool@ =~= base_pool(*opts));
    }
    if opts.exclude_similar {
        pool = retain_not_similar(&pool);
    }
    if pool.len() == 0 {
        pool = Vec::new();
        append_chars(&mut pool, "abcdefghijklmnopqrstuvwxyz");
        append_chars(&mut pool, "ABCDEFGHIJKLMNOPQRSTUVWXYZ");
        append_chars(&mut pool, "0123456789");
        proof {
            assert(pool@ =~= fallback_chars());
            lemma_pool_nonempty(*opts);
        }
    }
    pool
}

/// Generate a random string of exactly `opts.length` characters, each drawn
/// from the effective pool of the options. A zero length yields the empty
/// string. Which characters come out is up to the secure random source;
/// that every one of them lies in the pool, and the length, are guaranteed.
pub fn generate_password(opts: &Options) -> (r: String)
    ensures
        r@.len() == opts.length,
        forall|i: int| 0 <= i < r@.len() ==> pool_of(*opts).contains(#[trigger] r@[i]),
{
    let pool = build_pool(opts);
    let mut out: Vec<char> = Vec::new();
    let mut i: usize = 0;
    while i < opts.length
        invariant
            0 <= i <= opts.length,
            out@.len() == i,
            pool@ == pool_of(*opts),
            pool@.len() > 0,
            forall|k: int| 0 <= k < i ==> pool_of(*opts).contains(#[trigger] out@[k]),
        decreases opts.length - i,
    {
        let idx = (random_u64() as usize) % pool.len();
        let c = pool[idx];
        proof {
            assert(pool@.contains(pool@[idx as int]));
        }
        out.push(c);
        i = i + 1;
    }
    chars_to_string(&out)
}

} // verus!
