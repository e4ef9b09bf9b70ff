//! The byte blob that backs a database file, and bounds-checked reads from it.
//!
//! Every offset here is 1-based: offset `1` names the first byte of the blob.
use crate::error::Error;
use std::borrow::Cow;
use vstd::prelude::*;
use vstd::utf8::{decode_utf8, valid_utf8};

verus! {

/// The value of `s` read as a little-endian unsigned number.
pub open spec fn le_value(s: Seq<u8>) -> nat
    decreases s.len(),
{
    if s.len() == 0 {
        0
    } else {
        s[0] as nat + 256 * le_value(s.drop_first())
    }
}

/// `256` to the power `n`.
pub open spec fn pow256(n: nat) -> nat
    decreases n,
{
    if n == 0 {
        1
    } else {
        256 * pow256((n - 1) as nat)
    }
}

/// Whether the `n` bytes that start at the 1-based offset `o` all lie inside the blob.
pub open spec fn readable(blob: Seq<u8>, o: int, n: int) -> bool {
    1 <= o && o + n - 1 <= blob.len()
}

/// The `n` bytes that start at the 1-based offset `o`.
pub open spec fn bytes_at(blob: Seq<u8>, o: int, n: int) -> Seq<u8> {
    blob.subrange(o - 1, o - 1 + n)
}

/// The byte at the 1-based offset `o`.
pub open spec fn u8_at(blob: Seq<u8>, o: int) -> u8 {
    blob[o - 1]
}

/// The little-endian 32-bit word at the 1-based offset `o`.
pub open spec fn u32_at(blob: Seq<u8>, o: int) -> u32 {
    le_value(bytes_at(blob, o, 4)) as u32
}

/// The 128-bit number whose least significant octet is stored first, at the 1-based offset `o`.
pub open spec fn u128_at(blob: Seq<u8>, o: int) -> u128 {
    le_value(bytes_at(blob, o, 16)) as u128
}

/// Whether the length-prefixed string that the pointer `p` names lies inside the blob:
/// its length byte is at offset `p + 1`, its content at offsets `p + 2 ..= p + 1 + len`.
pub open spec fn str_readable(blob: Seq<u8>, p: int) -> bool {
    &&& 0 <= p
    &&& p < blob.len()
    &&& p + 1 + blob[p] <= blob.len()
}

/// The content bytes of the length-prefixed string that the pointer `p` names.
pub open spec fn str_bytes(blob: Seq<u8>, p: int) -> Seq<u8> {
    blob.subrange(p + 1, p + 1 + blob[p])
}

/// The text that a lossy UTF-8 decoding makes of `b`: each malformed sequence
/// becomes U+FFFD.
pub uninterp spec fn utf8_lossy(b: Seq<u8>) -> Seq<char>;

/// The text that the string pointer `p` names, or `None` where it escapes the blob.
pub open spec fn text_at(blob: Seq<u8>, p: int) -> Option<Seq<char>> {
    if str_readable(blob, p) {
        Some(utf8_lossy(str_bytes(blob, p)))
    } else {
        None
    }
}

/// What a read of a text returns, with the text seen as characters.
pub open spec fn text_result_view(r: Result<Cow<'_, str>, Error>) -> Result<Seq<char>, Error> {
    match r {
        Ok(t) => Ok(t@),
        Err(e) => Err(e),
    }
}

/// Relies on `String::from_utf8_lossy`: it replaces each malformed sequence with
/// U+FFFD, and hands valid UTF-8 back borrowed and unchanged.
#[verifier::external_body]
fn decode_lossy<'a>(b: &'a [u8]) -> (r: Cow<'a, str>)
    ensures
        r@ == utf8_lossy(b@),
        valid_utf8(b@) ==> r@ == decode_utf8(b@),
        valid_utf8(b@) ==> r is Borrowed,
{
    String::from_utf8_lossy(b)
}

proof fn lemma_le_value_4(s: Seq<u8>)
    requires
        s.len() == 4,
    ensures
        le_value(s) == s[0] + 256 * s[1] + 65536 * s[2] + 16777216 * s[3],
{
    reveal_with_fuel(le_value, 5);
    assert(s.drop_first()[0] == s[1]);
    assert(s.drop_first().drop_first()[0] == s[2]);
    assert(s.drop_first().drop_first().drop_first()[0] == s[3]);
    assert(s.drop_first().drop_first().drop_first().drop_first().len() == 0);
}

proof fn lemma_pow256_16()
    ensures
        pow256(16) == 0x1_0000_0000_0000_0000_0000_0000_0000_0000,
{
    reveal_with_fuel(pow256, 17);
}

proof fn lemma_pow256_monotonic(i: nat, j: nat)
    requires
        i <= j,
    ensures
        pow256(i) <= pow256(j),
    decreases j,
{
    if i < j {
        lemma_pow256_monotonic(i, (j - 1) as nat);
    }
}

/// A read-only view of the bytes of a database file.
pub struct Source<'a> {
    bytes: &'a [u8],
}

impl<'a> View for Source<'a> {
    type V = Seq<u8>;

    closed spec fn view(&self) -> Seq<u8> {
        self.bytes@
    }
}

impl<'a> Source<'a> {
    pub fn new(bytes: &'a [u8]) -> (s: Self)
        ensures
            s@ == bytes@,
    {
        Source { bytes }
    }

    /// The number of bytes in the blob.
    pub fn len(&self) -> (n: usize)
        ensures
            n == self@.len(),
    {
        self.bytes.len()
    }

    fn fits(&self, offset: u64, n: u64) -> (r: bool)
        requires
            1 <= n <= 16,
        ensures
            r == readable(self@, offset as int, n as int),
    {
        let len = self.bytes.len() as u64;
        offset >= 1 && offset <= len && len - offset >= n - 1
    }

    /// The byte at `offset`.
    pub fn read_u8(&self, offset: u64) -> (r: Result<u8, Error>)
        ensures
            r == (if readable(self@, offset as int, 1) {
                Ok(u8_at(self@, offset as int))
            } else {
                Err::<u8, Error>(Error::OutOfBounds)
            }),
    {
        if !self.fits(offset, 1) {
            return Err(Error::OutOfBounds);
        }
        let len: usize = self.bytes.len();
        assert(offset - 1 < len);
        Ok(self.bytes[(offset - 1) as usize])
    }

    /// The little-endian 32-bit word at `offset`.
    pub fn read_u32(&self, offset: u64) -> (r: Result<u32, Error>)
        ensures
            r == (if readable(self@, offset as int, 4) {
                Ok(u32_at(self@, offset as int))
            } else {
                Err::<u32, Error>(Error::OutOfBounds)
            }),
    {
        if !self.fits(offset, 4) {
            return Err(Error::OutOfBounds);
        }
        let len: usize = self.bytes.len();
        assert(offset - 1 < len);
        let i = (offset - 1) as usize;
        let b0 = self.bytes[i] as u32;
        let b1 = self.bytes[i + 1] as u32;
        let b2 = self.bytes[i + 2] as u32;
        let b3 = self.bytes[i + 3] as u32;
        proof {
            let s = bytes_at(self@, offset as int, 4);
            lemma_le_value_4(s);
            assert(s[0] == b0 && s[1] == b1 && s[2] == b2 && s[3] == b3);
        }
        Ok(b0 + b1 * 256 + b2 * 65536 + b3 * 16777216)
    }

    /// The bit pattern of the IEEE-754 single-precision number stored little-endian
    /// at `offset`.
    pub fn read_f32(&self, offset: u64) -> (r: Result<u32, Error>)
        ensures
            r == (if readable(self@, offset as int, 4) {
                Ok(u32_at(self@, offset as int))
            } else {
                Err::<u32, Error>(Error::OutOfBounds)
            }),
    {
        self.read_u32(offset)
    }

    /// The IPv6 address stored at `offset`, least significant octet first.
    pub fn read_ipv6(&self, offset: u64) -> (r: Result<u128, Error>)
        ensures
            r == (if readable(self@, offset as int, 16) {
                Ok(u128_at(self@, offset as int))
            } else {
                Err::<u128, Error>(Error::OutOfBounds)
            }),
    {
        if !self.fits(offset, 16) {
            return Err(Error::OutOfBounds);
        }
        let len: usize = self.bytes.len();
        assert(offset - 1 < len);
        let start = (offset - 1) as usize;
        let ghost s = bytes_at(self@, offset as int, 16);
        let mut acc: u128 = 0;
        let mut i: usize = 0;
        while i < 16
            invariant
                i <= 16,
                start + 16 <= len,
                len == self@.len(),
                s == self@.subrange(start as int, start + 16),
                acc == le_value(s.subrange(16 - i, 16)),
                acc < pow256(i as nat),
            decreases 16 - i,
        {
            let k = 15 - i;
            let byte = self.bytes[start + k];
            proof {
                let tail = s.subrange(k as int, 16);
                assert(tail.drop_first() =~= s.subrange(16 - i, 16));
                assert(tail[0] == byte);
                lemma_pow256_monotonic((i + 1) as nat, 16);
                lemma_pow256_16();
            }
            acc = byte as u128 + acc * 256;
            i = i + 1;
        }
        assert(s.subrange(0, 16) =~= s);
        Ok(acc)
    }

    /// The length-prefixed string that the pointer `offset` names: its length byte
    /// is at `offset + 1`, its content follows. Valid UTF-8 is returned as a view
    /// into the blob; anything else is decoded lossily.
    pub fn read_str(&self, offset: u64) -> (r: Result<Cow<'a, str>, Error>)
        ensures
            text_result_view(r) == (match text_at(self@, offset as int) {
                Some(t) => Ok(t),
                None => Err(Error::OutOfBounds),
            }),
            r is Ok && valid_utf8(str_bytes(self@, offset as int)) ==> r->Ok_0 is Borrowed,
            r is Ok && valid_utf8(str_bytes(self@, offset as int)) ==> r->Ok_0@ == decode_utf8(
                str_bytes(self@, offset as int),
            ),
    {
        let len = self.bytes.len() as u64;
        if offset >= len {
            return Err(Error::OutOfBounds);
        }
        let n = self.bytes[offset as usize] as u64;
        if len - offset - 1 < n {
            return Err(Error::OutOfBounds);
        }
        let from = (offset + 1) as usize;
        let to = (offset + 1 + n) as usize;
        let content: &'a [u8] = &self.bytes[from..to];
        Ok(decode_lossy(content))
    }
}

/// Offsets below this bound leave room for a column and a pointer's string
/// without overflow.
pub const ROW_OFFSET_LIMIT: u64 = 0x1_0000_0000_0000;

/// The 1-based offset of column `c` of the row whose column 1 starts at `row`.
pub open spec fn column_offset(row: int, c: u32) -> int {
    row + 4 * (c - 1)
}

/// A text column: `Some(None)` where the schema lacks it (`c == 0`), `Some(Some(t))`
/// with the text that its pointer names, and `None` where a read escapes the blob.
pub open spec fn text_column(blob: Seq<u8>, row: int, c: u32) -> Option<Option<Seq<char>>> {
    if c == 0 {
        Some(None)
    } else if !readable(blob, column_offset(row, c), 4) {
        None
    } else {
        match text_at(blob, u32_at(blob, column_offset(row, c)) as int) {
            Some(t) => Some(Some(t)),
            None => None,
        }
    }
}

/// A column that holds a 32-bit float, as its bit pattern; as for `text_column`.
pub open spec fn float_column(blob: Seq<u8>, row: int, c: u32) -> Option<Option<u32>> {
    if c == 0 {
        Some(None)
    } else if !readable(blob, column_offset(row, c), 4) {
        None
    } else {
        Some(Some(u32_at(blob, column_offset(row, c))))
    }
}

/// The country column: its pointer names the short name, and the long name
/// follows three bytes on; as for `text_column`.
pub open spec fn country_column(blob: Seq<u8>, row: int, c: u32) -> Option<
    Option<(Seq<char>, Seq<char>)>,
> {
    if c == 0 {
        Some(None)
    } else if !readable(blob, column_offset(row, c), 4) {
        None
    } else {
        let p = u32_at(blob, column_offset(row, c)) as int;
        match (text_at(blob, p), text_at(blob, p + 3)) {
            (Some(short), Some(long)) => Some(Some((short, long))),
            _ => None,
        }
    }
}

/// A column read seen through views: `None` for a failed read.
pub open spec fn text_column_view(r: Result<Option<Cow<'_, str>>, Error>) -> Option<
    Option<Seq<char>>,
> {
    match r {
        Ok(Some(t)) => Some(Some(t@)),
        Ok(None) => Some(None),
        Err(_) => None,
    }
}

/// A country column read seen through views.
pub open spec fn country_column_view(r: Result<Option<(Cow<'_, str>, Cow<'_, str>)>, Error>) -> Option<
    Option<(Seq<char>, Seq<char>)>,
> {
    match r {
        Ok(Some((s, l))) => Some(Some((s@, l@))),
        Ok(None) => Some(None),
        Err(_) => None,
    }
}

impl<'a> Source<'a> {
    /// Reads text column `c` of the row whose column 1 starts at `row`.
    pub fn read_text_column(&self, row: u64, c: u32) -> (r: Result<Option<Cow<'a, str>>, Error>)
        requires
            row < ROW_OFFSET_LIMIT,
        ensures
            text_column_view(r) == text_column(self@, row as int, c),
            r is Err ==> r->Err_0 == Error::OutOfBounds,
    {
        if c == 0 {
            return Ok(None);
        }
        let p = self.read_u32(row + 4 * (c as u64 - 1))?;
        let t = self.read_str(p as u64)?;
        Ok(Some(t))
    }

    /// Reads float column `c`, as its bit pattern, of the row whose column 1
    /// starts at `row`.
    pub fn read_float_column(&self, row: u64, c: u32) -> (r: Result<Option<u32>, Error>)
        requires
            row < ROW_OFFSET_LIMIT,
        ensures
            match r {
                Ok(v) => float_column(self@, row as int, c) == Some(v),
                Err(e) => float_column(self@, row as int, c) is None && e == Error::OutOfBounds,
            },
    {
        if c == 0 {
            return Ok(None);
        }
        let v = self.read_f32(row + 4 * (c as u64 - 1))?;
        Ok(Some(v))
    }

    /// Reads the country column `c`, short and long name, of the row whose
    /// column 1 starts at `row`.
    pub fn read_country_column(&self, row: u64, c: u32) -> (r: Result<
        Option<(Cow<'a, str>, Cow<'a, str>)>,
        Error,
    >)
        requires
            row < ROW_OFFSET_LIMIT,
        ensures
            country_column_view(r) == country_column(self@, row as int, c),
            r is Err ==> r->Err_0 == Error::OutOfBounds,
    {
        if c == 0 {
            return Ok(None);
        }
        let p = self.read_u32(row + 4 * (c as u64 - 1))?;
        let short_name = self.read_str(p as u64)?;
        let long_name = self.read_str(p as u64 + 3)?;
        Ok(Some((short_name, long_name)))
    }
}

} // verus!
