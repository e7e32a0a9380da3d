//! Order-preserving decimation of a result set, and fresh emitter tokens.

use vstd::prelude::*;

verus! {

/// Characters in an emitter token.
pub const AUTH_TOKEN_LENGTH: usize = 64;

/// Whether `c` is an ASCII letter or digit.
pub open spec fn is_alphanumeric(c: char) -> bool {
    ||| 'a' <= c <= 'z'
    ||| 'A' <= c <= 'Z'
    ||| '0' <= c <= '9'
}

/// Whether `text` has the form of an emitter token: `AUTH_TOKEN_LENGTH` ASCII
/// letters and digits.
pub open spec fn is_auth_token(text: Seq<char>) -> bool {
    &&& text.len() == AUTH_TOKEN_LENGTH
    &&& forall|i: int| 0 <= i < text.len() ==> is_alphanumeric(#[trigger] text[i])
}

/// `String::push` appends one character.
pub assume_specification[ String::push ](text: &mut String, c: char)
    ensures
        final(text)@ == old(text)@.push(c),
;

/// Calls `rand::Rng::sample` on `rand::rngs::OsRng` with
/// `rand::distributions::Alphanumeric`: one character from the operating
/// system's source of randomness.
///
/// Trusted: the byte is one of `a-z`, `A-Z`, `0-9`. Which one is chance.
/// `OsRng` panics where the operating system has no randomness to give; no
/// argument could rule that out.
#[verifier::external_body]
fn random_alphanumeric() -> (c: char)
    ensures
        is_alphanumeric(c),
{
    char::from(rand::Rng::sample(&mut rand::rngs::OsRng, rand::distributions::Alphanumeric))
}

/// A fresh token for an emitter: `AUTH_TOKEN_LENGTH` random letters and
/// digits.
pub fn get_auth_token() -> (token: String)
    ensures
        is_auth_token(token@),
{
    let mut token = String::new();
    let mut i: usize = 0;
    while i < AUTH_TOKEN_LENGTH
        invariant
            i <= AUTH_TOKEN_LENGTH,
            token@.len() == i,
            forall|j: int| 0 <= j < token@.len() ==> is_alphanumeric(#[trigger] token@[j]),
        decreases AUTH_TOKEN_LENGTH - i,
    {
        token.push(random_alphanumeric());
        i += 1;
    }
    token
}

/// The accumulator after the first `k` items, in units of `1 / len`: every
/// item adds `n / len`, and whenever the sum exceeds one, one is taken off.
pub open spec fn accumulated(n: int, len: int, k: int) -> int
    decreases k,
{
    if k <= 0 {
        0
    } else {
        let sum = accumulated(n, len, k - 1) + n;
        if sum > len {
            sum - len
        } else {
            sum
        }
    }
}

/// Whether the item at index `i` is emitted: adding its share takes the
/// accumulator above one.
pub open spec fn emits(n: int, len: int, i: int) -> bool {
    accumulated(n, len, i) + n > len
}

/// The items emitted among the first `k` of `data`, in the order of `data`.
pub open spec fn decimated<T>(data: Seq<T>, n: int, k: int) -> Seq<T>
    decreases k,
{
    if k <= 0 {
        Seq::empty()
    } else if emits(n, data.len() as int, k - 1) {
        decimated(data, n, k - 1).push(data[k - 1])
    } else {
        decimated(data, n, k - 1)
    }
}

/// What `sample` returns.
pub open spec fn sampled<T>(n: Option<u32>, data: Seq<T>) -> Seq<T> {
    match n {
        None => data,
        Some(n) => if n >= data.len() {
            data
        } else {
            decimated(data, n as int, data.len() as int)
        },
    }
}

/// How many items `sample` returns for a request of `n` out of `len`.
pub open spec fn sampled_len(n: Option<u32>, len: nat) -> nat {
    match n {
        None => len,
        Some(n) => if n >= len {
            len
        } else if n == 0 {
            0
        } else {
            (n - 1) as nat
        },
    }
}

/// Whether `sub` can be had from `full` by leaving items out, without
/// reordering: a strictly increasing choice of positions of `full` spells
/// `sub`.
pub open spec fn is_subsequence<T>(sub: Seq<T>, full: Seq<T>) -> bool {
    exists|at: Seq<int>| picks(sub, full, at, full.len() as int)
}

/// `at` lists, in increasing order, positions below `bound` of `full` that
/// hold the items of `sub`.
pub open spec fn picks<T>(sub: Seq<T>, full: Seq<T>, at: Seq<int>, bound: int) -> bool {
    &&& at.len() == sub.len()
    &&& forall|i: int| 0 <= i < at.len() ==> 0 <= #[trigger] at[i] < bound && at[i] < full.len()
    &&& forall|i: int| 0 <= i < at.len() ==> sub[i] == full[#[trigger] at[i]]
    &&& forall|i: int, j: int| 0 <= i < j < at.len() ==> #[trigger] at[i] < #[trigger] at[j]
}

/// The accumulator never leaves `0 ..= len`, and equals what was added less
/// one whole for each emitted item.
pub proof fn lemma_accumulated<T>(data: Seq<T>, n: int, k: int)
    requires
        0 <= n <= data.len(),
        0 <= k,
    ensures
        0 <= accumulated(n, data.len() as int, k) <= data.len(),
        n >= 1 && k >= 1 ==> accumulated(n, data.len() as int, k) >= 1,
        accumulated(n, data.len() as int, k) == k * n - decimated(data, n, k).len() * data.len(),
        decimated(data, n, k).len() <= k,
    decreases k,
{
    let len = data.len() as int;
    if k > 0 {
        lemma_accumulated(data, n, k - 1);
        let before = decimated(data, n, k - 1).len() as int;
        assert(k * n == (k - 1) * n + n) by (nonlinear_arith);
        assert((before + 1) * len == before * len + len) by (nonlinear_arith);
    } else {
        assert(0 * n == 0) by (nonlinear_arith);
        assert(0 * len == 0) by (nonlinear_arith);
    }
}

/// The number of items that decimation keeps: none for a request of zero,
/// else one fewer than requested, since the accumulator ends at exactly one
/// and an item is emitted only above one.
pub proof fn lemma_sampled_len<T>(n: Option<u32>, data: Seq<T>)
    ensures
        sampled(n, data).len() == sampled_len(n, data.len()),
{
    if let Some(m) = n {
        if m < data.len() {
            let len = data.len() as int;
            let kept = decimated(data, m as int, len).len() as int;
            lemma_accumulated(data, m as int, len);
            if m == 0 {
                assert(len * 0 == 0) by (nonlinear_arith);
                assert(kept == 0) by (nonlinear_arith)
                    requires
                        0 == len * 0 - kept * len,
                        len > 0,
                        kept >= 0,
                ;
            } else {
                assert(kept == m - 1) by (nonlinear_arith)
                    requires
                        1 <= len * m - kept * len <= len,
                        len > 0,
                ;
            }
        }
    }
}

/// Decimation leaves items out and reorders nothing.
pub proof fn lemma_decimated_is_subsequence<T>(data: Seq<T>, n: int, k: int)
    requires
        0 <= k <= data.len(),
    ensures
        exists|at: Seq<int>| picks(decimated(data, n, k), data, at, k),
    decreases k,
{
    if k <= 0 {
        assert(picks(decimated(data, n, k), data, Seq::<int>::empty(), k));
    } else {
        let prior = k - 1;
        lemma_decimated_is_subsequence(data, n, prior);
        let before = choose|at: Seq<int>| picks(decimated(data, n, prior), data, at, prior);
        if emits(n, data.len() as int, k - 1) {
            assert(picks(decimated(data, n, k), data, before.push(k - 1), k));
        } else {
            assert(picks(decimated(data, n, k), data, before, k));
        }
    }
}

/// Decimation looks at positions only: of two sequences that are related
/// item by item, it keeps the items at the same positions, so that what it
/// keeps is related item by item as well.
pub proof fn lemma_decimated_pointwise<A, B>(
    a: Seq<A>,
    b: Seq<B>,
    related: spec_fn(A, B) -> bool,
    n: int,
    k: int,
)
    requires
        a.len() == b.len(),
        0 <= k <= a.len(),
        forall|i: int| 0 <= i < a.len() ==> #[trigger] related(a[i], b[i]),
    ensures
        decimated(a, n, k).len() == decimated(b, n, k).len(),
        forall|j: int|
            0 <= j < decimated(a, n, k).len() ==> #[trigger] related(
                decimated(a, n, k)[j],
                decimated(b, n, k)[j],
            ),
    decreases k,
{
    if k > 0 {
        lemma_decimated_pointwise(a, b, related, n, k - 1);
        assert(related(a[k - 1], b[k - 1]));
    }
}

/// What `sample` returns of two sequences that are related item by item is
/// related item by item as well.
pub proof fn lemma_sampled_pointwise<A, B>(
    n: Option<u32>,
    a: Seq<A>,
    b: Seq<B>,
    related: spec_fn(A, B) -> bool,
)
    requires
        a.len() == b.len(),
        forall|i: int| 0 <= i < a.len() ==> #[trigger] related(a[i], b[i]),
    ensures
        sampled(n, a).len() == sampled(n, b).len(),
        forall|j: int|
            0 <= j < sampled(n, a).len() ==> #[trigger] related(sampled(n, a)[j], sampled(n, b)[j]),
{
    if let Some(m) = n {
        if m < a.len() {
            lemma_decimated_pointwise(a, b, related, m as int, a.len() as int);
        }
    }
}

/// Every sequence is a subsequence of itself.
pub proof fn lemma_subsequence_reflexive<T>(data: Seq<T>)
    ensures
        is_subsequence(data, data),
{
    let at = Seq::new(data.len(), |i: int| i);
    assert(picks(data, data, at, data.len() as int));
}

/// What `sample` returns is a subsequence of its input.
pub proof fn lemma_sampled_is_subsequence<T>(n: Option<u32>, data: Seq<T>)
    ensures
        is_subsequence(sampled(n, data), data),
{
    lemma_subsequence_reflexive(data);
    if let Some(m) = n {
        if m < data.len() {
            lemma_decimated_is_subsequence(data, m as int, data.len() as int);
        }
    }
}

/// Reduces `data` to the items that a deterministic, evenly spaced decimation
/// selects, in the order in which they came.
///
/// Without a request, or with one that the data does not exceed, the data
/// comes back unchanged. Otherwise every item adds `n / len` to an
/// accumulator that starts at zero, and an item is emitted, and one taken off
/// the accumulator, whenever the accumulator exceeds one. The arithmetic is
/// exact, so the same input gives the same output on every call. At the last
/// item the accumulator stands at exactly one, which does not exceed one: of
/// more than `n` items, `n - 1` are kept, and none for a request of zero.
pub fn sample<T>(n: Option<u32>, data: Vec<T>) -> (r: Vec<T>)
    ensures
        r@ == sampled(n, data@),
        n is None ==> r@ == data@,
        n matches Some(m) ==> (m >= data@.len() ==> r@ == data@),
        r@.len() == sampled_len(n, data@.len()),
        n matches Some(m) ==> (m == 0 || m == data@.len() ==> r@.len() == m),
        data@.len() == 0 ==> r@.len() == 0,
        is_subsequence(r@, data@),
{
    proof {
        lemma_sampled_len(n, data@);
        lemma_sampled_is_subsequence(n, data@);
    }
    match n {
        None => data,
        Some(n) => {
            let len = data.len();
            if n as usize >= len {
                return data;
            }
            let ghost items = data@;
            let mut out: Vec<T> = Vec::with_capacity(n as usize);
            let mut acc: u128 = 0;
            for d in it: data
                invariant
                    it.seq() == items,
                    items.len() == len,
                    n < len,
                    acc == accumulated(n as int, len as int, it.index() as int),
                    0 <= acc <= len,
                    out@ == decimated(items, n as int, it.index() as int),
            {
                acc = acc + n as u128;
                if acc > len as u128 {
                    out.push(d);
                    acc = acc - len as u128;
                }
            }
            out
        },
    }
}

} // verus!
