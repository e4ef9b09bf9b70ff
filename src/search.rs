//! Index-assisted binary search over the packed, sorted range rows.
use crate::common::{readable, u128_at, u32_at, Source, ROW_OFFSET_LIMIT};
use crate::error::Error;
use crate::header::{ipv4_row_width, ipv6_row_width, Header};
use crate::ip::SearchKey;
use vstd::prelude::*;

verus! {

/// The two row tables of a file.
#[derive(Clone, Copy, Debug, PartialEq, Eq, Structural)]
pub enum Family {
    V4,
    V6,
}

pub open spec fn row_width(h: Header, fam: Family) -> int {
    match fam {
        Family::V4 => ipv4_row_width(h),
        Family::V6 => ipv6_row_width(h),
    }
}

pub open spec fn table_base(h: Header, fam: Family) -> int {
    match fam {
        Family::V4 => h.ipv4_db_addr as int,
        Family::V6 => h.ipv6_db_addr as int,
    }
}

pub open spec fn table_count(h: Header, fam: Family) -> int {
    match fam {
        Family::V4 => h.ipv4_db_count as int,
        Family::V6 => h.ipv6_db_count as int,
    }
}

pub open spec fn index_base(h: Header, fam: Family) -> int {
    match fam {
        Family::V4 => h.ipv4_index_base_addr as int,
        Family::V6 => h.ipv6_index_base_addr as int,
    }
}

/// Bytes in the range-begin address that opens a row.
pub open spec fn key_width(fam: Family) -> int {
    match fam {
        Family::V4 => 4,
        Family::V6 => 16,
    }
}

/// The 1-based offset of row `i`.
pub open spec fn row_offset(h: Header, fam: Family, i: int) -> int {
    table_base(h, fam) + i * row_width(h, fam)
}

/// The offset of column 1 of row `i`: an IPv6 row starts its columns 12 bytes
/// further on, past the wider address.
pub open spec fn payload_offset(h: Header, fam: Family, i: int) -> int {
    match fam {
        Family::V4 => row_offset(h, fam, i),
        Family::V6 => row_offset(h, fam, i) + 12,
    }
}

/// Whether the range-begin address of row `i` lies inside the blob.
pub open spec fn key_readable(blob: Seq<u8>, h: Header, fam: Family, i: int) -> bool {
    readable(blob, row_offset(h, fam, i), key_width(fam))
}

/// The range-begin address of row `i`.
pub open spec fn row_key(blob: Seq<u8>, h: Header, fam: Family, i: int) -> int {
    match fam {
        Family::V4 => u32_at(blob, row_offset(h, fam, i)) as int,
        Family::V6 => u128_at(blob, row_offset(h, fam, i)) as int,
    }
}

/// Whether row `i` covers `key`: `key` is at or after its start and before the
/// start of row `i + 1`.
pub open spec fn covers(blob: Seq<u8>, h: Header, fam: Family, i: int, key: int) -> bool {
    row_key(blob, h, fam, i) <= key < row_key(blob, h, fam, i + 1)
}

/// The index entry of a key: its high 16 bits.
pub open spec fn key_prefix(fam: Family, key: int) -> int {
    match fam {
        Family::V4 => key / 0x1_0000,
        Family::V6 => key / 0x1_0000_0000_0000_0000_0000_0000_0000,
    }
}

/// The 1-based offset of the index entry of `key`.
pub open spec fn index_entry(h: Header, fam: Family, key: int) -> int {
    index_base(h, fam) + key_prefix(fam, key) * 8
}

/// The inclusive window of rows that the search probes for `key`: the whole
/// table, or what the index holds for the key's prefix.
pub open spec fn search_window(blob: Seq<u8>, h: Header, fam: Family, key: int) -> Result<
    (int, int),
    Error,
> {
    if index_base(h, fam) > 0 {
        let e = index_entry(h, fam, key);
        if readable(blob, e, 4) && readable(blob, e + 4, 4) {
            Ok((u32_at(blob, e) as int, u32_at(blob, e + 4) as int))
        } else {
            Err(Error::OutOfBounds)
        }
    } else {
        Ok((0, table_count(h, fam)))
    }
}

/// Binary search for `key` over rows `low..=high`: the index of the row that
/// covers it, `RecordNotFound` when the window closes, `OutOfBounds` when a
/// probed row escapes the blob.
pub open spec fn search_rows(
    blob: Seq<u8>,
    h: Header,
    fam: Family,
    key: int,
    low: int,
    high: int,
) -> Result<int, Error>
    decreases high - low + 1,
{
    if low > high {
        Err(Error::RecordNotFound)
    } else {
        let mid = (low + high) / 2;
        if !key_readable(blob, h, fam, mid) || !key_readable(blob, h, fam, mid + 1) {
            Err(Error::OutOfBounds)
        } else if covers(blob, h, fam, mid, key) {
            Ok(mid)
        } else if key < row_key(blob, h, fam, mid) {
            search_rows(blob, h, fam, key, low, mid - 1)
        } else {
            search_rows(blob, h, fam, key, mid + 1, high)
        }
    }
}

/// The row that a search for `key` in table `fam` finds; a table without rows
/// holds no address.
pub open spec fn find_row(blob: Seq<u8>, h: Header, fam: Family, key: int) -> Result<int, Error> {
    if table_count(h, fam) == 0 {
        Err(Error::RecordNotFound)
    } else {
        match search_window(blob, h, fam, key) {
        Err(e) => Err(e),
            Ok(w) => search_rows(blob, h, fam, key, w.0, w.1),
        }
    }
}

/// The key that the IPv4 table is searched for: the largest address is searched
/// as the one below it, since no range can end after it.
pub open spec fn ipv4_target(v: u32) -> u32 {
    if v == u32::MAX {
        (v - 1) as u32
    } else {
        v
    }
}

/// The table that a lookup for `k` searches, and the number it searches for.
pub open spec fn target_of(k: SearchKey) -> (Family, int) {
    match k {
        SearchKey::V4(v) => (Family::V4, ipv4_target(v) as int),
        SearchKey::V6(w) => (Family::V6, w as int),
    }
}

/// The table and row that a lookup for `k` lands on.
pub open spec fn locate(blob: Seq<u8>, h: Header, k: SearchKey) -> Result<(Family, int), Error> {
    let (fam, key) = target_of(k);
    match find_row(blob, h, fam, key) {
        Err(e) => Err(e),
        Ok(i) => Ok((fam, i)),
    }
}

/// The table that a lookup for `k` searches, and the number it searches for.
pub fn search_key_target(k: SearchKey) -> (r: (Family, u128))
    ensures
        r.0 == target_of(k).0,
        r.1 as int == target_of(k).1,
        r.0 == Family::V4 ==> r.1 <= u32::MAX,
{
    match k {
        SearchKey::V4(v) => {
            let target = if v == u32::MAX {
                v - 1
            } else {
                v
            };
            (Family::V4, target as u128)
        },
        SearchKey::V6(w) => (Family::V6, w),
    }
}

/// The offset of column 1 of row `i` of table `fam`.
pub fn row_payload_offset(h: &Header, fam: Family, i: u64) -> (r: u64)
    requires
        h.db_column >= 1,
        i <= u32::MAX,
    ensures
        r == payload_offset(*h, fam, i as int),
        r < ROW_OFFSET_LIMIT,
{
    let (base, _count, _index, width) = table_params(h, fam);
    assert(i * width <= 0xffff_ffff * 1032) by (nonlinear_arith)
        requires
            i <= 0xffff_ffff,
            width <= 1032,
    ;
    match fam {
        Family::V4 => base + i * width,
        Family::V6 => base + i * width + 12,
    }
}

fn read_key(src: &Source, h: &Header, fam: Family, offset: u64) -> (r: Result<u128, Error>)
    ensures
        r is Ok <==> readable(src@, offset as int, key_width(fam)),
        r is Ok ==> r->Ok_0 as int == (match fam {
            Family::V4 => u32_at(src@, offset as int) as int,
            Family::V6 => u128_at(src@, offset as int) as int,
        }),
        r is Err ==> r->Err_0 == Error::OutOfBounds,
{
    match fam {
        Family::V4 => {
            let v = src.read_u32(offset)?;
            Ok(v as u128)
        },
        Family::V6 => src.read_ipv6(offset),
    }
}

fn table_params(h: &Header, fam: Family) -> (r: (u64, u64, u64, u64))
    requires
        h.db_column >= 1,
    ensures
        r.0 == table_base(*h, fam),
        r.1 == table_count(*h, fam),
        r.2 == index_base(*h, fam),
        r.3 == row_width(*h, fam),
        1 <= r.3 <= 1032,
{
    match fam {
        Family::V4 => (
            h.ipv4_db_addr as u64,
            h.ipv4_db_count as u64,
            h.ipv4_index_base_addr as u64,
            h.db_column as u64 * 4,
        ),
        Family::V6 => (
            h.ipv6_db_addr as u64,
            h.ipv6_db_count as u64,
            h.ipv6_index_base_addr as u64,
            h.db_column as u64 * 4 + 12,
        ),
    }
}

/// Searches table `fam` for `key`, narrowing the window through the index when
/// the file has one.
pub fn search_table(src: &Source, h: &Header, fam: Family, key: u128) -> (r: Result<u64, Error>)
    requires
        h.db_column >= 1,
        fam == Family::V4 ==> key <= u32::MAX,
    ensures
        r matches Ok(i) ==> i <= u32::MAX,
        match r {
            Ok(i) => find_row(src@, *h, fam, key as int) == Ok::<int, Error>(i as int),
            Err(e) => find_row(src@, *h, fam, key as int) == Err::<int, Error>(e),
        },
{
    let (base, count, index, width) = table_params(h, fam);
    if count == 0 {
        return Err(Error::RecordNotFound);
    }
    let mut low: u64 = 0;
    let mut high: u64 = count;
    if index > 0 {
        let prefix: u64 = match fam {
            Family::V4 => {
                assert(key >> 16u128 == key / 0x1_0000) by (bit_vector);
                assert(key >> 16u128 <= 0xffff) by (bit_vector)
                    requires
                        key <= 0xffff_ffff,
                ;
                (key >> 16u128) as u64
            },
            Family::V6 => {
                assert(key >> 112u128 == key / 0x1_0000_0000_0000_0000_0000_0000_0000)
                    by (bit_vector);
                assert(key >> 112u128 <= 0xffff) by (bit_vector);
                (key >> 112u128) as u64
            },
        };
        let entry = index + prefix * 8;
        low = src.read_u32(entry)? as u64;
        high = src.read_u32(entry + 4)? as u64;
    }
    let ghost low0 = low as int;
    let ghost high0 = high as int;
    while low <= high
        invariant
            1 <= width <= 1032,
            base == table_base(*h, fam),
            width == row_width(*h, fam),
            table_count(*h, fam) != 0,
            low <= 0x1_0000_0000,
            high <= 0xffff_ffff,
            search_window(src@, *h, fam, key as int) == Ok::<(int, int), Error>((low0, high0)),
            search_rows(src@, *h, fam, key as int, low as int, high as int) == search_rows(
                src@,
                *h,
                fam,
                key as int,
                low0,
                high0,
            ),
        decreases high - low + 1,
    {
        let mid = (low + high) / 2;
        assert(mid * width <= 0xffff_ffff * 1032) by (nonlinear_arith)
            requires
                mid <= 0xffff_ffff,
                width <= 1032,
        ;
        let offset = base + mid * width;
        proof {
            assert(offset == row_offset(*h, fam, mid as int));
            assert(offset + width == row_offset(*h, fam, mid + 1)) by (nonlinear_arith)
                requires
                    offset == table_base(*h, fam) + mid * width,
                    width == row_width(*h, fam),
            ;
        }
        let ip_from = read_key(src, h, fam, offset)?;
        let ip_to = read_key(src, h, fam, offset + width)?;
        if ip_from <= key && key < ip_to {
            return Ok(mid);
        } else if key < ip_from {
            if mid == 0 {
                assert(search_rows(src@, *h, fam, key as int, low as int, -1) == Err::<int, Error>(
                    Error::RecordNotFound,
                ));
                return Err(Error::RecordNotFound);
            }
            high = mid - 1;
        } else {
            low = mid + 1;
        }
    }
    Err(Error::RecordNotFound)
}


/// Whether the range-begin addresses of rows `lo..=hi` all lie inside the blob.
pub open spec fn keys_readable(blob: Seq<u8>, h: Header, fam: Family, lo: int, hi: int) -> bool {
    forall|i: int| lo <= i <= hi ==> #[trigger] key_readable(blob, h, fam, i)
}

/// Whether the range-begin addresses of rows `lo..=hi` never decrease.
pub open spec fn keys_sorted(blob: Seq<u8>, h: Header, fam: Family, lo: int, hi: int) -> bool {
    forall|i: int, j: int|
        lo <= i <= j <= hi ==> #[trigger] row_key(blob, h, fam, i) <= #[trigger] row_key(
            blob,
            h,
            fam,
            j,
        )
}

/// A row that the search returns lies in its window and covers the key.
pub proof fn lemma_search_hit_covers(
    blob: Seq<u8>,
    h: Header,
    fam: Family,
    key: int,
    low: int,
    high: int,
)
    ensures
        search_rows(blob, h, fam, key, low, high) matches Ok(i) ==> low <= i <= high && covers(
            blob,
            h,
            fam,
            i,
            key,
        ),
    decreases high - low + 1,
{
    if low <= high {
        let mid = (low + high) / 2;
        lemma_search_hit_covers(blob, h, fam, key, low, mid - 1);
        lemma_search_hit_covers(blob, h, fam, key, mid + 1, high);
    }
}

/// Over sorted rows, at most one row covers a key.
pub proof fn lemma_covering_row_unique(
    blob: Seq<u8>,
    h: Header,
    fam: Family,
    key: int,
    lo: int,
    hi: int,
    i: int,
    j: int,
)
    requires
        keys_sorted(blob, h, fam, lo, hi),
        lo <= i < hi,
        lo <= j < hi,
        covers(blob, h, fam, i, key),
        covers(blob, h, fam, j, key),
    ensures
        i == j,
{
    if i < j {
        assert(row_key(blob, h, fam, i + 1) <= row_key(blob, h, fam, j));
    } else if j < i {
        assert(row_key(blob, h, fam, j + 1) <= row_key(blob, h, fam, i));
    }
}

/// Over readable, sorted rows the search finds the row of its window that covers
/// the key.
pub proof fn lemma_search_finds_covering_row(
    blob: Seq<u8>,
    h: Header,
    fam: Family,
    key: int,
    low: int,
    high: int,
    j: int,
)
    requires
        keys_readable(blob, h, fam, low, high + 1),
        keys_sorted(blob, h, fam, low, high + 1),
        low <= j <= high,
        covers(blob, h, fam, j, key),
    ensures
        search_rows(blob, h, fam, key, low, high) == Ok::<int, Error>(j),
    decreases high - low + 1,
{
    let mid = (low + high) / 2;
    assert(key_readable(blob, h, fam, mid) && key_readable(blob, h, fam, mid + 1));
    if covers(blob, h, fam, mid, key) {
        lemma_covering_row_unique(blob, h, fam, key, low, high + 1, mid, j);
    } else if key < row_key(blob, h, fam, mid) {
        if j >= mid {
            assert(row_key(blob, h, fam, mid) <= row_key(blob, h, fam, j));
        }
        lemma_search_finds_covering_row(blob, h, fam, key, low, mid - 1, j);
    } else {
        if j <= mid {
            assert(row_key(blob, h, fam, j + 1) <= row_key(blob, h, fam, mid + 1));
        }
        lemma_search_finds_covering_row(blob, h, fam, key, mid + 1, high, j);
    }
}

/// Where every probed row lies inside the blob, the search never reports
/// `OutOfBounds`.
pub proof fn lemma_search_in_bounds(
    blob: Seq<u8>,
    h: Header,
    fam: Family,
    key: int,
    low: int,
    high: int,
)
    requires
        keys_readable(blob, h, fam, low, high + 1),
    ensures
        search_rows(blob, h, fam, key, low, high) is Ok || search_rows(blob, h, fam, key, low, high)
            == Err::<int, Error>(Error::RecordNotFound),
    decreases high - low + 1,
{
    if low <= high {
        let mid = (low + high) / 2;
        assert(key_readable(blob, h, fam, mid) && key_readable(blob, h, fam, mid + 1));
        lemma_search_in_bounds(blob, h, fam, key, low, mid - 1);
        lemma_search_in_bounds(blob, h, fam, key, mid + 1, high);
    }
}

/// Where the window for `key` ends within the table and the range starts of rows
/// `0..=count + 1` lie inside the blob, the search finds a row of `0..=count` or
/// misses.
pub proof fn lemma_find_row_in_table(blob: Seq<u8>, h: Header, fam: Family, key: int)
    requires
        0 <= key,
        search_window(blob, h, fam, key) matches Ok(w) && w.1 <= table_count(h, fam),
        keys_readable(blob, h, fam, 0, table_count(h, fam) + 1),
    ensures
        find_row(blob, h, fam, key) is Ok || find_row(blob, h, fam, key) == Err::<int, Error>(
            Error::RecordNotFound,
        ),
        find_row(blob, h, fam, key) matches Ok(i) ==> 0 <= i <= table_count(h, fam),
{
    let w = search_window(blob, h, fam, key)->Ok_0;
    assert(w.0 >= 0);
    assert(keys_readable(blob, h, fam, w.0, w.1 + 1));
    lemma_search_in_bounds(blob, h, fam, key, w.0, w.1);
    lemma_search_hit_covers(blob, h, fam, key, w.0, w.1);
}

} // verus!
