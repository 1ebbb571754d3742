//! Byte-level memory operations inside a tasklet's own address space.
//!
//! A copy or fill works on one byte slice `mem` that holds every byte it
//! touches, with pointers as offsets into it, so that overlapping regions are
//! the same bytes; a copy between regions that share no byte can also take
//! them as two slices. A comparison only reads, and takes its two regions as
//! two slices. Every operation copies, fills or compares byte by byte exactly
//! as the tasklet's `memcpy`, `memmove`, `memset` and `memcmp` do.
use vstd::prelude::*;

verus! {

/// The memory after copying `k` bytes front to back, one at a time, from
/// `src` to `dest`: step `j` reads `src + j` from the memory as left by
/// the earlier steps and writes it to `dest + j`.
pub open spec fn forward_copied(mem: Seq<u8>, dest: int, src: int, k: nat) -> Seq<u8>
    decreases k,
{
    if k == 0 {
        mem
    } else {
        let prev = forward_copied(mem, dest, src, (k - 1) as nat);
        prev.update(dest + k - 1, prev[src + k - 1])
    }
}

/// The memory after the last `k` of `n` bytes have been copied back to
/// front, one at a time: step `j` (from 1) reads `src + n - j` from the memory
/// as left by the earlier steps and writes it to `dest + n - j`.
pub open spec fn backward_copied(mem: Seq<u8>, dest: int, src: int, n: nat, k: nat) -> Seq<u8>
    decreases k,
{
    if k == 0 {
        mem
    } else {
        let prev = backward_copied(mem, dest, src, n, (k - 1) as nat);
        prev.update(dest + n - k, prev[src + n - k])
    }
}

/// The memory in which `[dest, dest + n)` holds what `[src, src + n)` held
/// before, and every other byte is unchanged.
pub open spec fn moved(mem: Seq<u8>, dest: int, src: int, n: int) -> Seq<u8> {
    Seq::new(mem.len(), |i: int| if dest <= i < dest + n { mem[src + (i - dest)] } else { mem[i] })
}

/// The memory in which `[s, s + n)` holds `c` and every other byte is unchanged.
pub open spec fn filled(mem: Seq<u8>, s: int, c: u8, n: int) -> Seq<u8> {
    Seq::new(mem.len(), |i: int| if s <= i < s + n { c } else { mem[i] })
}

/// The `n` bytes of `mem` from offset `s`.
pub open spec fn region(mem: Seq<u8>, s: usize, n: usize) -> Seq<u8> {
    mem.subrange(s as int, s + n)
}

/// Comparison of two byte strings of the same length: the difference of the
/// first pair of bytes that differ, or 0 when there is none.
pub open spec fn bytes_diff(a: Seq<u8>, b: Seq<u8>) -> int
    decreases a.len(),
{
    if a.len() == 0 || b.len() == 0 {
        0
    } else if a[0] != b[0] {
        a[0] as int - b[0] as int
    } else {
        bytes_diff(a.drop_first(), b.drop_first())
    }
}

/// Copying front to back is a move when the destination does not start
/// inside the source: `dest <= src`, or the regions are disjoint.
pub proof fn lemma_forward_copy_is_move(mem: Seq<u8>, dest: int, src: int, n: nat, k: nat)
    requires
        k <= n,
        0 <= dest,
        0 <= src,
        dest + n <= mem.len(),
        src + n <= mem.len(),
        dest <= src || src + n <= dest,
    ensures
        forward_copied(mem, dest, src, k) == moved(mem, dest, src, k as int),
    decreases k,
{
    if k > 0 {
        lemma_forward_copy_is_move(mem, dest, src, n, (k - 1) as nat);
        let prev = forward_copied(mem, dest, src, (k - 1) as nat);
        assert(prev[src + k - 1] == mem[src + k - 1]);
        assert(forward_copied(mem, dest, src, k) =~= moved(mem, dest, src, k as int));
    }
}

/// Copying back to front is a move when the destination does not start
/// before the source: `src <= dest`, or the regions are disjoint.
pub proof fn lemma_backward_copy_is_move(mem: Seq<u8>, dest: int, src: int, n: nat, k: nat)
    requires
        k <= n,
        0 <= dest,
        0 <= src,
        dest + n <= mem.len(),
        src + n <= mem.len(),
        src <= dest || dest + n <= src,
    ensures
        backward_copied(mem, dest, src, n, k) == Seq::new(
            mem.len(),
            |i: int| if dest + n - k <= i < dest + n { mem[src + (i - dest)] } else { mem[i] },
        ),
    decreases k,
{
    if k > 0 {
        lemma_backward_copy_is_move(mem, dest, src, n, (k - 1) as nat);
        let prev = backward_copied(mem, dest, src, n, (k - 1) as nat);
        assert(prev[src + n - k] == mem[src + n - k]);
        assert(backward_copied(mem, dest, src, n, k) =~= Seq::new(
            mem.len(),
            |i: int| if dest + n - k <= i < dest + n { mem[src + (i - dest)] } else { mem[i] },
        ));
    }
}

/// When the first `i` bytes agree, the comparison is decided by the rest.
pub proof fn lemma_bytes_diff_skip(a: Seq<u8>, b: Seq<u8>, i: int)
    requires
        0 <= i <= a.len(),
        a.len() == b.len(),
        forall|j: int| 0 <= j < i ==> a[j] == b[j],
    ensures
        bytes_diff(a, b) == bytes_diff(a.skip(i), b.skip(i)),
    decreases i,
{
    if i > 0 {
        assert(a[0] == b[0]);
        lemma_bytes_diff_skip(a.drop_first(), b.drop_first(), i - 1);
        assert(a.drop_first().skip(i - 1) =~= a.skip(i));
        assert(b.drop_first().skip(i - 1) =~= b.skip(i));
    } else {
        assert(a.skip(0) =~= a);
        assert(b.skip(0) =~= b);
    }
}

/// Comparing the other way round gives the negated result.
pub proof fn lemma_bytes_diff_antisymmetric(a: Seq<u8>, b: Seq<u8>)
    requires
        a.len() == b.len(),
    ensures
        bytes_diff(a, b) == -bytes_diff(b, a),
    decreases a.len(),
{
    if a.len() > 0 && a[0] == b[0] {
        lemma_bytes_diff_antisymmetric(a.drop_first(), b.drop_first());
    }
}

/// Two byte strings of the same length compare as 0 exactly when they are equal.
pub proof fn lemma_bytes_diff_zero_iff_equal(a: Seq<u8>, b: Seq<u8>)
    requires
        a.len() == b.len(),
    ensures
        (bytes_diff(a, b) == 0) <==> (a == b),
    decreases a.len(),
{
    if a.len() == 0 {
        assert(a =~= b);
    } else if a[0] == b[0] {
        lemma_bytes_diff_zero_iff_equal(a.drop_first(), b.drop_first());
        if a.drop_first() == b.drop_first() {
            assert forall|i: int| 0 <= i < a.len() implies a[i] == b[i] by {
                if i > 0 {
                    assert(a[i] == a.drop_first()[i - 1]);
                    assert(b[i] == b.drop_first()[i - 1]);
                }
            }
            assert(a =~= b);
        }
        if a == b {
            assert(a.drop_first() =~= b.drop_first());
        }
    }
}

/// The comparison of two byte strings of the same length is the difference
/// of the bytes at the first position `k` where they differ, however many
/// bytes follow it; so its sign is that of that difference.
pub proof fn lemma_bytes_diff_first_difference(a: Seq<u8>, b: Seq<u8>, k: int)
    requires
        a.len() == b.len(),
        0 <= k < a.len(),
        forall|j: int| 0 <= j < k ==> a[j] == b[j],
        a[k] != b[k],
    ensures
        bytes_diff(a, b) == a[k] as int - b[k] as int,
        (bytes_diff(a, b) < 0) <==> (a[k] < b[k]),
        (bytes_diff(a, b) > 0) <==> (a[k] > b[k]),
{
    lemma_bytes_diff_skip(a, b, k);
    assert(a.skip(k)[0] == a[k]);
    assert(b.skip(k)[0] == b[k]);
}

/// The first `n` bytes of two byte strings compare as the difference of the
/// bytes at the first position `k < n` where they differ, and as 0 when the
/// first `n` bytes agree.
pub proof fn lemma_prefix_diff(s1: Seq<u8>, s2: Seq<u8>, n: int, k: int)
    requires
        0 <= n <= s1.len(),
        n <= s2.len(),
    ensures
        (forall|j: int| 0 <= j < n ==> s1[j] == s2[j]) ==> bytes_diff(s1.subrange(0, n), s2.subrange(0, n)) == 0,
        (0 <= k < n && (forall|j: int| 0 <= j < k ==> s1[j] == s2[j]) && s1[k] != s2[k]) ==> bytes_diff(
            s1.subrange(0, n),
            s2.subrange(0, n),
        ) == s1[k] as int - s2[k] as int,
{
    let a = s1.subrange(0, n);
    let b = s2.subrange(0, n);
    if forall|j: int| 0 <= j < n ==> s1[j] == s2[j] {
        assert(a =~= b);
        lemma_bytes_diff_zero_iff_equal(a, b);
    }
    if 0 <= k < n && (forall|j: int| 0 <= j < k ==> s1[j] == s2[j]) && s1[k] != s2[k] {
        assert forall|j: int| 0 <= j < k implies a[j] == b[j] by {
            assert(a[j] == s1[j]);
            assert(b[j] == s2[j]);
        }
        lemma_bytes_diff_first_difference(a, b, k);
    }
}

/// After a move, the `n` bytes at `dest` are the `n` bytes that were at
/// `src`, so they compare equal to them, and every byte outside the
/// destination is as it was.
pub proof fn lemma_moved_bytes(mem: Seq<u8>, dest: int, src: int, n: int)
    requires
        0 <= dest,
        0 <= src,
        0 <= n,
        dest + n <= mem.len(),
        src + n <= mem.len(),
    ensures
        moved(mem, dest, src, n).len() == mem.len(),
        moved(mem, dest, src, n).subrange(dest, dest + n) == mem.subrange(src, src + n),
        bytes_diff(moved(mem, dest, src, n).subrange(dest, dest + n), mem.subrange(src, src + n)) == 0,
        forall|i: int|
            0 <= i < mem.len() && !(dest <= i < dest + n) ==> #[trigger] moved(mem, dest, src, n)[i] == mem[i],
{
    let m = moved(mem, dest, src, n);
    assert(m.subrange(dest, dest + n) =~= mem.subrange(src, src + n));
    lemma_bytes_diff_zero_iff_equal(m.subrange(dest, dest + n), mem.subrange(src, src + n));
}

/// After a fill, each of the `n` bytes at `s` is `c`, and every other byte
/// is as it was.
pub proof fn lemma_filled_bytes(mem: Seq<u8>, s: int, c: u8, n: int)
    requires
        0 <= s,
        0 <= n,
        s + n <= mem.len(),
    ensures
        filled(mem, s, c, n).len() == mem.len(),
        filled(mem, s, c, n).subrange(s, s + n) == Seq::new(n as nat, |j: int| c),
        forall|i: int| 0 <= i < mem.len() && !(s <= i < s + n) ==> #[trigger] filled(mem, s, c, n)[i] == mem[i],
{
    assert(filled(mem, s, c, n).subrange(s, s + n) =~= Seq::new(n as nat, |j: int| c));
}

/// Copies `n` bytes from offset `src` to offset `dest`, front to back.
pub fn copy_forward(mem: &mut [u8], dest: usize, src: usize, n: usize)
    requires
        dest + n <= old(mem)@.len(),
        src + n <= old(mem)@.len(),
    ensures
        final(mem)@ == forward_copied(old(mem)@, dest as int, src as int, n as nat),
{
    proof {
        assert(old(mem)@.len() == old(mem).len());
    }
    let mut i: usize = 0;
    while i < n
        invariant
            i <= n,
            dest + n <= old(mem)@.len(),
            src + n <= old(mem)@.len(),
            mem@.len() == old(mem)@.len(),
            old(mem)@.len() <= usize::MAX,
            mem@ == forward_copied(old(mem)@, dest as int, src as int, i as nat),
        decreases n - i,
    {
        let b = mem[src + i];
        mem[dest + i] = b;
        i = i + 1;
    }
}

/// Copies `n` bytes from offset `src` to offset `dest`, back to front.
pub fn copy_backward(mem: &mut [u8], dest: usize, src: usize, n: usize)
    requires
        dest + n <= old(mem)@.len(),
        src + n <= old(mem)@.len(),
    ensures
        final(mem)@ == backward_copied(old(mem)@, dest as int, src as int, n as nat, n as nat),
{
    proof {
        assert(old(mem)@.len() == old(mem).len());
    }
    let mut i: usize = n;
    while i > 0
        invariant
            i <= n,
            dest + n <= old(mem)@.len(),
            src + n <= old(mem)@.len(),
            mem@.len() == old(mem)@.len(),
            old(mem)@.len() <= usize::MAX,
            mem@ == backward_copied(old(mem)@, dest as int, src as int, n as nat, (n - i) as nat),
        decreases i,
    {
        i = i - 1;
        let b = mem[src + i];
        mem[dest + i] = b;
    }
}

/// Writes `c` to the `n` bytes from offset `s`.
pub fn set_bytes(mem: &mut [u8], s: usize, c: u8, n: usize)
    requires
        s + n <= old(mem)@.len(),
    ensures
        final(mem)@ == filled(old(mem)@, s as int, c, n as int),
{
    proof {
        assert(old(mem)@.len() == old(mem).len());
    }
    let mut i: usize = 0;
    while i < n
        invariant
            i <= n,
            s + n <= old(mem)@.len(),
            mem@.len() == old(mem)@.len(),
            old(mem)@.len() <= usize::MAX,
            mem@ == filled(old(mem)@, s as int, c, i as int),
        decreases n - i,
    {
        mem[s + i] = c;
        i = i + 1;
        assert(mem@ =~= filled(old(mem)@, s as int, c, i as int));
    }
    assert(mem@ =~= filled(old(mem)@, s as int, c, n as int));
}

/// Compares the first `n` bytes of `s1` with the first `n` bytes of `s2`:
/// the difference of the first two bytes that differ, or 0.
pub fn compare_bytes(s1: &[u8], s2: &[u8], n: usize) -> (r: i32)
    requires
        n <= s1@.len(),
        n <= s2@.len(),
    ensures
        r == bytes_diff(s1@.subrange(0, n as int), s2@.subrange(0, n as int)),
{
    let ghost a = s1@.subrange(0, n as int);
    let ghost b = s2@.subrange(0, n as int);
    let mut i: usize = 0;
    while i < n
        invariant
            i <= n,
            n <= s1@.len(),
            n <= s2@.len(),
            a == s1@.subrange(0, n as int),
            b == s2@.subrange(0, n as int),
            forall|j: int| 0 <= j < i ==> a[j] == b[j],
        decreases n - i,
    {
        let x = s1[i];
        let y = s2[i];
        if x != y {
            proof {
                lemma_bytes_diff_skip(a, b, i as int);
                assert(a.skip(i as int)[0] == x);
                assert(b.skip(i as int)[0] == y);
            }
            return (x as i32) - (y as i32);
        }
        i = i + 1;
    }
    proof {
        lemma_bytes_diff_skip(a, b, n as int);
    }
    0
}

/// Whether the `n` bytes from address `a` and the `n` bytes from address `b`
/// share a byte.
pub fn regions_overlap(a: usize, b: usize, n: usize) -> (r: bool)
    ensures
        r == (n > 0 && a < b + n && b < a + n),
{
    if n == 0 {
        return false;
    }
    if a <= b {
        b - a < n
    } else {
        a - b < n
    }
}

/// Copies the first `n` bytes of `src` over the first `n` bytes of `dest`,
/// for a source that is a different region of memory.
pub fn copy_nonoverlapping(dest: &mut [u8], src: &[u8], n: usize)
    requires
        n <= old(dest)@.len(),
        n <= src@.len(),
    ensures
        final(dest)@ == src@.subrange(0, n as int) + old(dest)@.subrange(n as int, old(dest)@.len() as int),
{
    let mut i: usize = 0;
    while i < n
        invariant
            i <= n,
            n <= src@.len(),
            dest@.len() == old(dest)@.len(),
            n <= old(dest)@.len(),
            dest@ == src@.subrange(0, i as int) + old(dest)@.subrange(i as int, old(dest)@.len() as int),
        decreases n - i,
    {
        dest[i] = src[i];
        i = i + 1;
        assert(dest@ =~= src@.subrange(0, i as int) + old(dest)@.subrange(i as int, old(dest)@.len() as int));
    }
}

/// `memcpy`: copies `n` bytes from offset `src` to offset `dest`, front to
/// back, and returns `dest`.
pub fn memcpy(mem: &mut [u8], dest: usize, src: usize, n: usize) -> (r: usize)
    requires
        dest + n <= old(mem)@.len(),
        src + n <= old(mem)@.len(),
    ensures
        r == dest,
        final(mem)@ == forward_copied(old(mem)@, dest as int, src as int, n as nat),
        dest <= src || src + n <= dest ==> final(mem)@ == moved(
            old(mem)@,
            dest as int,
            src as int,
            n as int,
        ),
{
    copy_forward(mem, dest, src, n);
    proof {
        if dest <= src || src + n <= dest {
            lemma_forward_copy_is_move(old(mem)@, dest as int, src as int, n as nat, n as nat);
        }
    }
    dest
}

/// `memmove`: copies `n` bytes from offset `src` to offset `dest` as if
/// through a temporary buffer, even when the two regions overlap, and
/// returns `dest`. It copies front to back when `dest - src`, taken modulo
/// the word size, is at least `n`, and back to front otherwise.
pub fn memmove(mem: &mut [u8], dest: usize, src: usize, n: usize) -> (r: usize)
    requires
        dest + n <= old(mem)@.len(),
        src + n <= old(mem)@.len(),
    ensures
        r == dest,
        final(mem)@ == moved(old(mem)@, dest as int, src as int, n as int),
{
    proof {
        assert(old(mem)@.len() == old(mem).len());
    }
    let delta = dest.wrapping_sub(src);
    if delta >= n {
        proof {
            assert(dest <= src || src + n <= dest);
            lemma_forward_copy_is_move(old(mem)@, dest as int, src as int, n as nat, n as nat);
        }
        copy_forward(mem, dest, src, n);
    } else {
        proof {
            assert(src <= dest);
            lemma_backward_copy_is_move(old(mem)@, dest as int, src as int, n as nat, n as nat);
            assert(moved(old(mem)@, dest as int, src as int, n as int) =~= Seq::new(
                old(mem)@.len(),
                |i: int|
                    if dest + n - n <= i < dest + n {
                        old(mem)@[src + (i - dest)]
                    } else {
                        old(mem)@[i]
                    },
            ));
        }
        copy_backward(mem, dest, src, n);
    }
    dest
}

/// `memset`: writes the low byte of `c` to the `n` bytes from offset `s`
/// and returns `s`.
pub fn memset(mem: &mut [u8], s: usize, c: i32, n: usize) -> (r: usize)
    requires
        s + n <= old(mem)@.len(),
    ensures
        r == s,
        final(mem)@ == filled(old(mem)@, s as int, c as u8, n as int),
{
    set_bytes(mem, s, c as u8, n);
    s
}

/// `memcmp`: compares the first `n` bytes of `s1` with the first `n` bytes
/// of `s2`.
pub fn memcmp(s1: &[u8], s2: &[u8], n: usize) -> (r: i32)
    requires
        n <= s1@.len(),
        n <= s2@.len(),
    ensures
        r == bytes_diff(region(s1@, 0, n), region(s2@, 0, n)),
{
    compare_bytes(s1, s2, n)
}

} // verus!
