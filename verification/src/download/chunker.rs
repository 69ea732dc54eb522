//! Byte ranges of a chunked download.
use vstd::prelude::*;
use crate::json::{decimal, lemma_decimal_injective, u64_to_string};
use crate::text::{join, str_eq};

verus! {

/// Size of one download chunk: 4 MiB.
pub const CHUNK_SIZE: u64 = 4194304;

/// The `k`-th chunk of a file of `total_size` bytes: inclusive byte range
/// starting at `k * CHUNK_SIZE`, at most `CHUNK_SIZE` bytes long, and ending
/// no later than the last byte of the file.
pub open spec fn chunk_range(total_size: u64, k: int) -> (int, int) {
    let start = k * CHUNK_SIZE;
    let end = if start + CHUNK_SIZE - 1 < total_size - 1 {
        start + CHUNK_SIZE - 1
    } else {
        total_size - 1
    };
    (start, end)
}

/// The number of chunks of a file of `total_size` bytes.
pub open spec fn chunk_count(total_size: u64) -> int {
    (total_size + CHUNK_SIZE - 1) / (CHUNK_SIZE as int)
}

/// `chunks` are exactly the chunks of a file of `total_size` bytes, in order.
pub open spec fn are_chunks_of(chunks: Seq<(u64, u64)>, total_size: u64) -> bool {
    &&& chunks.len() == chunk_count(total_size)
    &&& forall|k: int|
        0 <= k < chunks.len() ==> (#[trigger] chunks[k]).0 == chunk_range(total_size, k).0 && chunks[k].1
            == chunk_range(total_size, k).1
}

/// Splits a file of `total_size` bytes into inclusive byte ranges of at most
/// `CHUNK_SIZE` bytes each.
pub fn calculate_chunks(total_size: u64) -> (chunks: Vec<(u64, u64)>)
    requires
        total_size + CHUNK_SIZE - 1 <= u64::MAX,
    ensures
        are_chunks_of(chunks@, total_size),
{
    let mut chunks: Vec<(u64, u64)> = Vec::new();
    let mut start: u64 = 0;
    let ghost mut k: int = 0;
    while start < total_size
        invariant
            start == k * CHUNK_SIZE,
            k == chunks@.len(),
            start <= total_size + CHUNK_SIZE,
            total_size + CHUNK_SIZE - 1 <= u64::MAX,
            start < total_size ==> start + CHUNK_SIZE - 1 < total_size + CHUNK_SIZE - 1,
            start < total_size ==> k < chunk_count(total_size),
            start >= total_size ==> k == chunk_count(total_size),
            forall|j: int|
                0 <= j < k ==> (#[trigger] chunks@[j]).0 == chunk_range(total_size, j).0
                    && chunks@[j].1 == chunk_range(total_size, j).1,
        decreases total_size + CHUNK_SIZE - start,
    {
        let end = if start + (CHUNK_SIZE - 1) < total_size - 1 {
            start + (CHUNK_SIZE - 1)
        } else {
            total_size - 1
        };
        chunks.push((start, end));
        assert(chunks@[k].0 == chunk_range(total_size, k).0);
        start = start + CHUNK_SIZE;
        proof {
            k = k + 1;
            assert(start == k * CHUNK_SIZE) by (nonlinear_arith)
                requires start == (k - 1) * CHUNK_SIZE + CHUNK_SIZE;
            lemma_count_bounds(total_size, k);
        }
    }
    chunks
}

/// Relates the chunk index `k` to the number of chunks.
proof fn lemma_count_bounds(total_size: u64, k: int)
    requires
        k >= 1,
        (k - 1) * CHUNK_SIZE < total_size,
    ensures
        k * CHUNK_SIZE < total_size ==> k < chunk_count(total_size),
        k * CHUNK_SIZE >= total_size ==> k == chunk_count(total_size),
{
    let c = CHUNK_SIZE as int;
    let t = total_size as int;
    assert(c == 4194304);
    if k * c < t {
        assert(k * c + c - 1 < t + c - 1);
        assert(k < (t + c - 1) / c) by (nonlinear_arith)
            requires k * c < t, c > 0;
    } else {
        assert(k == (t + c - 1) / c) by (nonlinear_arith)
            requires k * c >= t, (k - 1) * c < t, c > 0;
    }
}

/// The chunks of a file cover its bytes exactly once: they are contiguous,
/// start at byte 0, end at its last byte, and none is empty or larger than
/// `CHUNK_SIZE`.
pub proof fn law_chunks_partition(total_size: u64, chunks: Seq<(u64, u64)>)
    requires
        are_chunks_of(chunks, total_size),
    ensures
        total_size == 0 <==> chunks.len() == 0,
        chunks.len() > 0 ==> chunks[0].0 == 0 && chunks.last().1 == total_size - 1,
        forall|k: int| 0 <= k < chunks.len() ==> (#[trigger] chunks[k]).0 <= chunks[k].1 && chunks[k].1 - chunks[k].0 < CHUNK_SIZE,
        forall|k: int| 0 <= k < chunks.len() - 1 ==> (#[trigger] chunks[k]).1 + 1 == chunks[k + 1].0,
{
    let c = CHUNK_SIZE as int;
    let t = total_size as int;
    let n = chunks.len() as int;
    assert(n == (t + c - 1) / c);
    if t == 0 {
        assert(n == 0) by (nonlinear_arith)
            requires n == (t + c - 1) / c, t == 0, c == 4194304;
    } else {
        assert(n >= 1) by (nonlinear_arith)
            requires n == (t + c - 1) / c, t >= 1, c == 4194304;
        assert((n - 1) * c < t && t <= n * c) by (nonlinear_arith)
            requires n == (t + c - 1) / c, t >= 1, c == 4194304;
    }
    assert forall|k: int| 0 <= k < n implies (#[trigger] chunks[k]).0 <= chunks[k].1 && chunks[k].1
        - chunks[k].0 < CHUNK_SIZE by {
        assert(k * c <= (n - 1) * c) by (nonlinear_arith)
            requires k <= n - 1, c >= 0;
    }
    assert forall|k: int| 0 <= k < n - 1 implies (#[trigger] chunks[k]).1 + 1 == chunks[k + 1].0 by {
        assert((k + 1) * c <= (n - 1) * c) by (nonlinear_arith)
            requires k + 1 <= n - 1, c >= 0;
        assert((k + 1) * c == k * c + c) by (nonlinear_arith);
    }
    if n > 0 {
        assert((n - 1) * c + c - 1 >= t - 1) by (nonlinear_arith)
            requires t <= n * c, c == 4194304;
    }
}

/// The name of part file `i` (the file that holds chunk `i`): `chunk_` and
/// the number.
pub open spec fn part_name(i: nat) -> Seq<char> {
    "chunk_"@ + decimal(i)
}

/// The name of part file `i` (see [`part_name`]).
pub fn part_file_name(i: u64) -> (r: String)
    ensures
        r@ == part_name(i as nat),
{
    let n = u64_to_string(i);
    join("chunk_", n.as_str())
}

/// `parts` are the part files that an assembly reads from a directory that
/// holds the files `present`: `chunk_0`, `chunk_1`, ... in index order, each
/// present, up to the first index whose file is absent.
pub open spec fn is_assembly_order(parts: Seq<Seq<char>>, present: Seq<Seq<char>>) -> bool {
    &&& forall|k: int|
        0 <= k < parts.len() ==> #[trigger] parts[k] == part_name(k as nat) && present.contains(parts[k])
    &&& !present.contains(part_name(parts.len()))
}

/// Part files of distinct chunks have distinct names.
proof fn lemma_part_names_distinct(i: nat, j: nat)
    requires
        part_name(i) == part_name(j),
    ensures
        i == j,
{
    let p = "chunk_"@;
    assert(part_name(i).subrange(p.len() as int, part_name(i).len() as int) =~= decimal(i));
    assert(part_name(j).subrange(p.len() as int, part_name(j).len() as int) =~= decimal(j));
    lemma_decimal_injective(i, j);
}

/// A listing that holds the part files of chunks `0` to `n - 1` has at least
/// `n` entries.
proof fn lemma_parts_fit(present: Seq<Seq<char>>, n: nat)
    requires
        forall|k: nat| k < n ==> present.contains(#[trigger] part_name(k)),
    ensures
        n <= present.len(),
{
    let idx = vstd::set_lib::set_int_range(0, n as int);
    vstd::set_lib::lemma_int_range(0, n as int);
    let f = |k: int| part_name(k as nat);
    let names = idx.map(f);
    assert forall|a: int, b: int| idx.contains(a) && idx.contains(b) && #[trigger] f(a) == #[trigger] f(b) implies a == b by {
        lemma_part_names_distinct(a as nat, b as nat);
    }
    assert(vstd::relations::injective_on(f, idx));
    vstd::set_lib::lemma_map_size(idx, names, f);
    assert forall|x: Seq<char>| names.contains(x) implies present.to_set().contains(x) by {
        let k = choose|k: int| idx.contains(k) && f(k) == x;
        assert(present.contains(part_name(k as nat)));
    }
    present.lemma_cardinality_of_set();
    vstd::set_lib::lemma_len_subset(names, present.to_set());
}

/// Whether `present` holds a file named `name`.
fn holds_name(present: &Vec<String>, name: &str) -> (b: bool)
    ensures
        b == present.deep_view().contains(name@),
{
    let mut j: usize = 0;
    while j < present.len()
        invariant
            j <= present.len(),
            forall|k: int| 0 <= k < j ==> present.deep_view()[k] != name@,
        decreases present.len() - j,
    {
        if str_eq(present[j].as_str(), name) {
            assert(present.deep_view()[j as int] == name@);
            return true;
        }
        j = j + 1;
    }
    false
}

/// The part files to join, in order, given the names of the files in the
/// part directory of a download: every chunk file written, `chunk_0` first,
/// up to the first index whose file is absent (see [`is_assembly_order`]).
pub fn assembly_parts(present: &Vec<String>) -> (parts: Vec<String>)
    ensures
        is_assembly_order(parts.deep_view(), present.deep_view()),
{
    let mut parts: Vec<String> = Vec::new();
    let mut i: u64 = 0;
    loop
        invariant
            i == parts.len(),
            i <= present.len(),
            forall|k: int|
                0 <= k < parts.len() ==> #[trigger] parts.deep_view()[k] == part_name(k as nat)
                    && present.deep_view().contains(parts.deep_view()[k]),
        decreases present.len() - i,
    {
        let name = part_file_name(i);
        if !holds_name(present, name.as_str()) {
            return parts;
        }
        proof {
            assert forall|k: nat| k < i + 1 implies present.deep_view().contains(#[trigger] part_name(k)) by {
                if k < i {
                    assert(parts.deep_view()[k as int] == part_name(k));
                }
            }
            lemma_parts_fit(present.deep_view(), (i + 1) as nat);
        }
        let ghost before = parts.deep_view();
        parts.push(name);
        assert(parts.deep_view() =~= before.push(part_name(i as nat)));
        i = i + 1;
    }
}

/// Assembly reads exactly the chunk files written: where the part directory
/// holds the files of chunks `0` to `n - 1` (in any order, beside any other
/// files) and none for chunk `n`, the parts read are those `n` files, in
/// index order.
pub proof fn law_assembly_reads_written_parts(parts: Seq<Seq<char>>, present: Seq<Seq<char>>, n: nat)
    requires
        forall|k: nat| k < n ==> present.contains(#[trigger] part_name(k)),
        !present.contains(part_name(n)),
        is_assembly_order(parts, present),
    ensures
        parts.len() == n,
        forall|k: int| 0 <= k < n ==> #[trigger] parts[k] == part_name(k as nat),
{
    if parts.len() < n {
        assert(present.contains(part_name(parts.len())));
    }
    if parts.len() > n {
        assert(parts[n as int] == part_name(n));
    }
}

} // verus!
