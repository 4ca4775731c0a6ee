//! Chunk planning: how a file of `total_size` bytes is cut into pieces of at
//! most `chunk_size` bytes.
use vstd::prelude::*;
use vstd::slice::*;

verus! {

/// The chunk size used by the command-line client: one MiB.
pub const DEFAULT_CHUNK_SIZE: u64 = 1048576;

/// Number of chunks needed for `s` bytes: `ceil(s / c)`.
pub open spec fn chunk_count(s: nat, c: nat) -> nat
    recommends
        c > 0,
{
    if s % c == 0 {
        s / c
    } else {
        s / c + 1
    }
}

/// First byte of chunk `i`.
pub open spec fn chunk_start(i: nat, c: nat) -> nat {
    i * c
}

/// One past the last byte of chunk `i` of an `s`-byte file.
pub open spec fn chunk_end(i: nat, s: nat, c: nat) -> nat {
    if (i + 1) * c <= s {
        (i + 1) * c
    } else {
        s
    }
}

/// How a file is cut into chunks.
#[derive(Debug, Clone, Copy, PartialEq, Eq, Structural)]
pub struct ChunkPlan {
    pub total_size: u64,
    pub chunk_size: u64,
    pub total_chunks: u64,
}

impl ChunkPlan {
    /// The plan is the one `plan` computes for its size and chunk size.
    pub open spec fn wf(&self) -> bool {
        &&& self.chunk_size > 0
        &&& self.total_chunks as nat == chunk_count(self.total_size as nat, self.chunk_size as nat)
    }

    /// Byte range `[start, end)` of chunk `index` under this plan.
    pub fn range_for(&self, index: u64) -> (r: (u64, u64))
        requires
            self.wf(),
            index < self.total_chunks,
        ensures
            r.0 as nat == chunk_start(index as nat, self.chunk_size as nat),
            r.1 as nat == chunk_end(index as nat, self.total_size as nat, self.chunk_size as nat),
            r.0 < r.1 <= self.total_size,
    {
        range_for(index, self.total_size, self.chunk_size)
    }
}

proof fn lemma_count_bounds(s: nat, c: nat)
    requires
        c > 0,
    ensures
        chunk_count(s, c) * c >= s,
        chunk_count(s, c) > 0 ==> (chunk_count(s, c) - 1) * c < s,
        chunk_count(s, c) <= s,
{
    let n = chunk_count(s, c);
    assert(s == (s / c) * c + s % c) by (nonlinear_arith)
        requires
            c > 0,
    ;
    assert(s / c <= s) by (nonlinear_arith)
        requires
            c > 0,
    ;
    if s % c == 0 {
        assert(n * c >= s);
        if n > 0 {
            assert((n - 1) * c == n * c - c) by (nonlinear_arith);
        }
    } else {
        assert(n * c == (s / c) * c + c) by (nonlinear_arith)
            requires
                n == s / c + 1,
        ;
        assert((n - 1) * c == (s / c) * c) by (nonlinear_arith)
            requires
                n == s / c + 1,
        ;
        assert(s / c + 1 <= s) by (nonlinear_arith)
            requires
                c > 0,
                s % c != 0,
                s == (s / c) * c + s % c,
        ;
    }
}

/// Number of chunks for a file of `total_size` bytes cut into pieces of
/// `chunk_size` bytes: `ceil(total_size / chunk_size)`. An empty file has no
/// chunks.
pub fn plan(total_size: u64, chunk_size: u64) -> (r: ChunkPlan)
    requires
        chunk_size > 0,
    ensures
        r.wf(),
        r.total_size == total_size,
        r.chunk_size == chunk_size,
        r.total_chunks as nat == chunk_count(total_size as nat, chunk_size as nat),
{
    let q = total_size / chunk_size;
    let total_chunks = if total_size % chunk_size == 0 {
        q
    } else {
        proof {
            lemma_count_bounds(total_size as nat, chunk_size as nat);
        }
        q + 1
    };
    ChunkPlan { total_size, chunk_size, total_chunks }
}

/// Byte range `[index * chunk_size, min((index + 1) * chunk_size, total_size))`
/// of chunk `index`.
pub fn range_for(index: u64, total_size: u64, chunk_size: u64) -> (r: (u64, u64))
    requires
        chunk_size > 0,
        (index as nat) < chunk_count(total_size as nat, chunk_size as nat),
    ensures
        r.0 as nat == chunk_start(index as nat, chunk_size as nat),
        r.1 as nat == chunk_end(index as nat, total_size as nat, chunk_size as nat),
        r.0 < r.1 <= total_size,
{
    proof {
        let n = chunk_count(total_size as nat, chunk_size as nat);
        lemma_count_bounds(total_size as nat, chunk_size as nat);
        assert(index * chunk_size <= (n - 1) * chunk_size) by (nonlinear_arith)
            requires
                index <= n - 1,
        ;
    }
    let start = index * chunk_size;
    let rest = total_size - start;
    let end = if rest >= chunk_size {
        start + chunk_size
    } else {
        total_size
    };
    proof {
        assert((index as nat + 1) * chunk_size == index * chunk_size + chunk_size) by (nonlinear_arith);
    }
    (start, end)
}

/// The chunk ranges partition `[0, s)`: chunk 0 starts at 0, each chunk is
/// non-empty and ends where the next begins, the last one ends at `s`, and
/// every byte position `p < s` lies in exactly one chunk, namely `p / c`.
pub proof fn lemma_ranges_partition(s: nat, c: nat)
    requires
        c > 0,
    ensures
        chunk_count(s, c) > 0 ==> chunk_start(0, c) == 0,
        chunk_count(s, c) > 0 ==> chunk_end((chunk_count(s, c) - 1) as nat, s, c) == s,
        forall|i: nat| i < chunk_count(s, c) ==> #[trigger] chunk_start(i, c) < chunk_end(i, s, c),
        forall|i: nat|
            i + 1 < chunk_count(s, c) ==> #[trigger] chunk_end(i, s, c) == chunk_start(i + 1, c),
        forall|p: nat, i: nat|
            p < s && i < chunk_count(s, c) ==> (chunk_start(i, c) <= p < #[trigger] chunk_end(i, s, c)
                <==> i == #[trigger] (p / c)),
        forall|p: nat| p < s ==> #[trigger] (p / c) < chunk_count(s, c),
{
    let n = chunk_count(s, c);
    lemma_count_bounds(s, c);
    assert forall|i: nat| i < n implies #[trigger] chunk_start(i, c) < chunk_end(i, s, c) by {
        assert(i * c <= (n - 1) * c) by (nonlinear_arith)
            requires
                i <= n - 1,
        ;
        assert((i + 1) * c == i * c + c) by (nonlinear_arith);
    }
    assert forall|i: nat| i + 1 < n implies #[trigger] chunk_end(i, s, c) == chunk_start(i + 1, c) by {
        assert((i + 1) * c <= (n - 1) * c) by (nonlinear_arith)
            requires
                i + 1 <= n - 1,
        ;
    }
    if n > 0 {
        assert(((n - 1) as nat + 1) * c >= s);
    }
    assert forall|p: nat| p < s implies #[trigger] (p / c) < n by {
        assert((p / c) * c <= p) by (nonlinear_arith)
            requires
                c > 0,
        ;
        if p / c >= n {
            assert((p / c) * c >= n * c) by (nonlinear_arith)
                requires
                    p / c >= n,
            ;
        }
    }
    assert forall|p: nat, i: nat| p < s && i < n implies (chunk_start(i, c) <= p < #[trigger] chunk_end(
        i,
        s,
        c,
    ) <==> i == #[trigger] (p / c)) by {
        assert(p == (p / c) * c + p % c && p % c < c) by (nonlinear_arith)
            requires
                c > 0,
        ;
        assert((i + 1) * c == i * c + c) by (nonlinear_arith);
        if chunk_start(i, c) <= p && p < chunk_end(i, s, c) {
            assert(i * c <= p < i * c + c);
            assert(p / c == i) by (nonlinear_arith)
                requires
                    i * c <= p < i * c + c,
                    c > 0,
            ;
        }
        if i == p / c {
            assert(i * c <= p < i * c + c);
        }
    }
}

/// Bytes of chunk `i` of `content`.
pub open spec fn chunk_bytes(content: Seq<u8>, i: nat, c: nat) -> Seq<u8> {
    content.subrange(chunk_start(i, c) as int, chunk_end(i, content.len(), c) as int)
}

/// The chunks of `content`, in index order.
pub open spec fn chunks_of(content: Seq<u8>, c: nat) -> Seq<Seq<u8>> {
    Seq::new(chunk_count(content.len(), c), |i: int| chunk_bytes(content, i as nat, c))
}

/// Copies out the payload of chunk `index` of `content`.
pub fn chunk_payload(content: &[u8], chunk_size: u64, index: u64) -> (r: Vec<u8>)
    requires
        chunk_size > 0,
        content@.len() <= u64::MAX,
        (index as nat) < chunk_count(content@.len(), chunk_size as nat),
    ensures
        r@ == chunk_bytes(content@, index as nat, chunk_size as nat),
{
    let (start, end) = range_for(index, content.len() as u64, chunk_size);
    slice_to_vec(slice_subrange(content, start as usize, end as usize))
}

/// End of the first `k` chunks.
spec fn prefix_end(k: nat, s: nat, c: nat) -> nat {
    if k == 0 {
        0
    } else {
        chunk_end((k - 1) as nat, s, c)
    }
}

proof fn lemma_prefix_flatten(content: Seq<u8>, c: nat, k: nat)
    requires
        c > 0,
        k <= chunk_count(content.len(), c),
    ensures
        chunks_of(content, c).take(k as int).flatten() == content.subrange(
            0,
            prefix_end(k, content.len(), c) as int,
        ),
    decreases k,
{
    let s = content.len();
    let cs = chunks_of(content, c);
    lemma_ranges_partition(s, c);
    if k == 0 {
        assert(cs.take(0) =~= Seq::<Seq<u8>>::empty());
        assert(content.subrange(0, 0) =~= Seq::<u8>::empty());
    } else {
        let j = (k - 1) as nat;
        lemma_prefix_flatten(content, c, j);
        let prev = prefix_end(j, s, c);
        assert(prev == chunk_start(j, c)) by {
            if j > 0 {
                assert(chunk_end((j - 1) as nat, s, c) == chunk_start(((j - 1) as nat + 1) as nat, c));
            }
        }
        assert(chunk_start(j, c) < chunk_end(j, s, c));
        assert(cs.take(k as int) =~= cs.take(j as int).push(cs[j as int]));
        cs.take(j as int).lemma_flatten_push(cs[j as int]);
        assert(chunk_end(j, s, c) <= s) by {
            lemma_count_bounds(s, c);
        }
        assert(content.subrange(0, prev as int) + content.subrange(prev as int, chunk_end(j, s, c) as int)
            =~= content.subrange(0, chunk_end(j, s, c) as int));
    }
}

/// Writing the chunks of a file one after another, in index order,
/// reproduces the file exactly.
pub proof fn lemma_chunks_reassemble(content: Seq<u8>, c: nat)
    requires
        c > 0,
    ensures
        chunks_of(content, c).flatten() == content,
{
    let s = content.len();
    let n = chunk_count(s, c);
    let cs = chunks_of(content, c);
    lemma_ranges_partition(s, c);
    lemma_prefix_flatten(content, c, n);
    assert(cs.take(n as int) =~= cs);
    if n == 0 {
        assert(s == 0) by {
            lemma_count_bounds(s, c);
        }
    }
    assert(content.subrange(0, s as int) =~= content);
}

} // verus!
