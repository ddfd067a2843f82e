//! The hash by which the grid tells whether the data it measured its column
//! widths on is still the data it shows.
//!
//! The hash covers the column names and, of the first rows, the row's index
//! and the first 50 characters of each cell. Texts are fed to the hasher as
//! their UTF-8 bytes followed by the byte `0xff`, so that two texts never
//! read like one; an index is fed as eight bytes, lowest first.

use crate::text::chars_of;
use crate::text::string_of_range;
use std::collections::hash_map::DefaultHasher;
use std::hash::Hasher;
use vstd::prelude::*;
use vstd::std_specs::hash::DefaultHasherAdditionalSpecFns;
use vstd::string::StringSliceAdditionalSpecFns;
use vstd::utf8::encode_utf8;

verus! {

/// How many characters of a cell the hash covers.
pub const SAMPLE_CHARS: usize = 50;

/// The first `k` bytes of `n`, lowest first.
pub open spec fn low_bytes(n: nat, k: nat) -> Seq<u8>
    decreases k,
{
    if k == 0 {
        Seq::empty()
    } else {
        seq![(n % 256) as u8] + low_bytes(n / 256, (k - 1) as nat)
    }
}

/// What a text feeds to the hasher: its UTF-8 bytes, then `0xff`.
pub open spec fn text_writes(s: Seq<char>) -> Seq<Seq<u8>> {
    seq![encode_utf8(s), seq![0xffu8]]
}

/// What an index feeds to the hasher: its eight bytes, lowest first.
pub open spec fn index_writes(n: usize) -> Seq<Seq<u8>> {
    seq![low_bytes(n as nat, 8)]
}

/// The part of a cell that the hash covers: its first 50 characters.
pub open spec fn sample(cell: Seq<char>) -> Seq<char> {
    if cell.len() > SAMPLE_CHARS {
        cell.take(SAMPLE_CHARS as int)
    } else {
        cell
    }
}

/// What the first `n` of `texts` feed to the hasher.
pub open spec fn texts_writes(texts: Seq<String>, n: int) -> Seq<Seq<u8>>
    decreases n,
{
    if n <= 0 {
        Seq::empty()
    } else {
        texts_writes(texts, n - 1) + text_writes(texts[n - 1]@)
    }
}

/// What the samples of the first `n` of `cells` feed to the hasher.
pub open spec fn cells_writes(cells: Seq<String>, n: int) -> Seq<Seq<u8>>
    decreases n,
{
    if n <= 0 {
        Seq::empty()
    } else {
        cells_writes(cells, n - 1) + text_writes(sample(cells[n - 1]@))
    }
}

/// What the first `n` of `rows` feed to the hasher: of each row its index,
/// then its cells.
pub open spec fn rows_writes(rows: Seq<(usize, &Vec<String>)>, n: int) -> Seq<Seq<u8>>
    decreases n,
{
    if n <= 0 {
        Seq::empty()
    } else {
        rows_writes(rows, n - 1) + index_writes(rows[n - 1].0) + cells_writes(
            rows[n - 1].1@,
            rows[n - 1].1@.len() as int,
        )
    }
}

/// How many rows the hash covers: `sample_count`, or all if there are fewer.
pub open spec fn covered(rows: Seq<(usize, &Vec<String>)>, sample_count: usize) -> int {
    if sample_count < rows.len() {
        sample_count as int
    } else {
        rows.len() as int
    }
}

/// All that the data feeds to the hasher.
pub open spec fn data_writes(
    columns: Seq<String>,
    rows: Seq<(usize, &Vec<String>)>,
    sample_count: usize,
) -> Seq<Seq<u8>> {
    texts_writes(columns, columns.len() as int) + rows_writes(rows, covered(rows, sample_count))
}

/// Feeds a text to the hasher.
fn hash_text(state: &mut DefaultHasher, s: &str)
    ensures
        final(state)@ == old(state)@ + text_writes(s@),
{
    state.write(s.as_bytes());
    let mut end: Vec<u8> = Vec::new();
    end.push(0xffu8);
    state.write(end.as_slice());
    assert(end@ =~= seq![0xffu8]);
    assert(state@ =~= old(state)@ + text_writes(s@));
}

/// Feeds an index to the hasher.
fn hash_index(state: &mut DefaultHasher, n: usize)
    ensures
        final(state)@ == old(state)@ + index_writes(n),
{
    let mut bytes: Vec<u8> = Vec::new();
    let mut rest: u64 = n as u64;
    let mut i: usize = 0;
    while i < 8
        invariant
            i <= 8,
            bytes@ + low_bytes(rest as nat, (8 - i) as nat) == low_bytes(n as nat, 8),
        decreases 8 - i,
    {
        let ghost before = bytes@;
        bytes.push((rest % 256) as u8);
        proof {
            assert(bytes@ + low_bytes(rest as nat / 256, (8 - i - 1) as nat) =~= before
                + low_bytes(rest as nat, (8 - i) as nat));
        }
        rest = rest / 256;
        i += 1;
    }
    assert(bytes@ + low_bytes(rest as nat, 0) =~= bytes@);
    state.write(bytes.as_slice());
    assert(state@ =~= old(state)@ + index_writes(n));
}

/// The first 50 characters of a cell.
fn sample_of(cell: &str) -> (s: String)
    ensures
        s@ == sample(cell@),
{
    let v = chars_of(cell);
    if v.len() > SAMPLE_CHARS {
        string_of_range(&v, 0, SAMPLE_CHARS)
    } else {
        let n: usize = v.len();
        let s = string_of_range(&v, 0, n);
        assert(v@.subrange(0, n as int) =~= v@);
        s
    }
}

/// The data grid. Drawing is left to the caller; what the grid computes on
/// its data is here.
pub struct DataGrid;

impl DataGrid {
    /// The hash of the data: of the column names and of the first
    /// `sample_count` rows, each with its index and the first 50 characters of
    /// each of its cells.
    pub fn calculate_data_hash(
        columns: &Vec<String>,
        filtered_rows: &Vec<(usize, &Vec<String>)>,
        sample_count: usize,
    ) -> (hash: u64)
        ensures
            hash == DefaultHasher::spec_finish(data_writes(columns@, filtered_rows@, sample_count)),
    {
        let mut hasher = DefaultHasher::new();
        let mut i: usize = 0;
        assert(hasher@ =~= texts_writes(columns@, 0));
        while i < columns.len()
            invariant
                i <= columns@.len(),
                hasher@ == texts_writes(columns@, i as int),
            decreases columns@.len() - i,
        {
            hash_text(&mut hasher, columns[i].as_str());
            i += 1;
        }
        let ghost head = hasher@;
        let count: usize = if sample_count < filtered_rows.len() {
            sample_count
        } else {
            filtered_rows.len()
        };
        let mut r: usize = 0;
        assert(hasher@ =~= head + rows_writes(filtered_rows@, 0));
        while r < count
            invariant
                r <= count <= filtered_rows@.len(),
                hasher@ == head + rows_writes(filtered_rows@, r as int),
            decreases count - r,
        {
            let ghost done = rows_writes(filtered_rows@, r as int);
            let index: usize = filtered_rows[r].0;
            let cells: &Vec<String> = filtered_rows[r].1;
            hash_index(&mut hasher, index);
            let ghost base = hasher@;
            let mut c: usize = 0;
            assert(hasher@ =~= base + cells_writes(cells@, 0));
            while c < cells.len()
                invariant
                    c <= cells@.len(),
                    hasher@ == base + cells_writes(cells@, c as int),
                decreases cells@.len() - c,
            {
                let ghost so_far = cells_writes(cells@, c as int);
                let part = sample_of(cells[c].as_str());
                hash_text(&mut hasher, part.as_str());
                assert(hasher@ =~= base + (so_far + text_writes(sample(cells@[c as int]@))));
                c += 1;
            }
            assert(hasher@ =~= head + (done + index_writes(index) + cells_writes(
                cells@,
                cells@.len() as int,
            )));
            r += 1;
        }
        hasher.finish()
    }

    /// How many rows the widths of the columns are measured on: a hundred, or
    /// all if there are fewer.
    pub fn sample_count(row_count: usize) -> (n: usize)
        ensures
            n == if row_count < 100 {
                row_count
            } else {
                100
            },
    {
        if row_count < 100 {
            row_count
        } else {
            100
        }
    }

}

/// The hash looks at no more of a row's cells than their first 50
/// characters: rows with the same samples feed the hasher the same.
pub proof fn lemma_cells_writes_by_sample(a: Seq<String>, b: Seq<String>, n: int)
    requires
        0 <= n <= a.len(),
        a.len() == b.len(),
        forall|i: int| 0 <= i < a.len() ==> sample(#[trigger] a[i]@) == sample(b[i]@),
    ensures
        cells_writes(a, n) == cells_writes(b, n),
    decreases n,
{
    if n > 0 {
        lemma_cells_writes_by_sample(a, b, n - 1);
        assert(sample(a[n - 1]@) == sample(b[n - 1]@));
    }
}

} // verus!
