//! The GPT label of a child: the header, found at LBA 1 or in the backup at
//! the last block, and the partition entries that it describes.

use vstd::prelude::*;

verus! {

/// The CRC-32 (IEEE) of a byte string, as the crc crate computes it.
pub uninterp spec fn crc32_of(bytes: Seq<u8>) -> u32;

/// Relies on `crc::crc32::checksum_ieee`: the CRC-32 (IEEE) of the bytes,
/// which depends on the bytes alone.
#[verifier::external_body]
fn crc32(bytes: &[u8]) -> (r: u32)
    ensures
        r == crc32_of(bytes@),
{
    crc::crc32::checksum_ieee(bytes)
}

/// "EFI PART", read as a little-endian integer.
pub const GPT_SIGNATURE: u64 = 0x5452_4150_2049_4645;

/// Revision 1.0, read as a little-endian integer.
pub const GPT_REVISION: u32 = 0x0001_0000;

/// The length of the header that its checksum covers.
pub const GPT_HEADER_SIZE: usize = 92;

/// The part of a partition entry that is read; entries may be longer.
pub const GPT_ENTRY_SIZE: usize = 128;

/// The little-endian integer held by four bytes at `o`.
pub open spec fn le_u32(b: Seq<u8>, o: int) -> u32 {
    (b[o] as int + b[o + 1] as int * 0x100 + b[o + 2] as int * 0x1_0000 + b[o + 3] as int * 0x100_0000) as u32
}

/// The little-endian integer held by eight bytes at `o`.
pub open spec fn le_u64(b: Seq<u8>, o: int) -> u64 {
    (le_u32(b, o) as int + le_u32(b, o + 4) as int * 0x1_0000_0000) as u64
}

/// The little-endian integer held by sixteen bytes at `o`.
pub open spec fn le_u128(b: Seq<u8>, o: int) -> u128 {
    (le_u64(b, o) as int + le_u64(b, o + 8) as int * 0x1_0000_0000_0000_0000) as u128
}

fn read_u32(b: &[u8], o: usize) -> (r: u32)
    requires
        o + 4 <= b@.len() <= usize::MAX,
    ensures
        r == le_u32(b@, o as int),
{
    b[o] as u32 + b[o + 1] as u32 * 0x100 + b[o + 2] as u32 * 0x1_0000 + b[o + 3] as u32 * 0x100_0000
}

fn read_u64(b: &[u8], o: usize) -> (r: u64)
    requires
        o + 8 <= b@.len() <= usize::MAX,
    ensures
        r == le_u64(b@, o as int),
{
    read_u32(b, o) as u64 + read_u32(b, o + 4) as u64 * 0x1_0000_0000
}

fn read_u128(b: &[u8], o: usize) -> (r: u128)
    requires
        o + 16 <= b@.len() <= usize::MAX,
    ensures
        r == le_u128(b@, o as int),
{
    read_u64(b, o) as u128 + read_u64(b, o + 8) as u128 * 0x1_0000_0000_0000_0000
}

/// A GPT header.
#[derive(Clone, Copy, Debug, PartialEq, Eq, Structural)]
pub struct GptHeader {
    pub signature: u64,
    pub revision: u32,
    pub header_size: u32,
    pub self_checksum: u32,
    pub reserved: u32,
    pub lba_self: u64,
    pub lba_alt: u64,
    pub lba_start: u64,
    pub lba_end: u64,
    pub guid: u128,
    pub lba_table: u64,
    pub num_entries: u32,
    pub entry_size: u32,
    pub table_crc: u32,
}

/// The bytes that the header checksum covers: the header with its checksum
/// field zeroed.
pub open spec fn header_crc_input(b: Seq<u8>) -> Seq<u8> {
    b.subrange(0, 16) + seq![0u8, 0u8, 0u8, 0u8] + b.subrange(20, GPT_HEADER_SIZE as int)
}

/// Whether a block holds a valid GPT header: long enough, with the GPT
/// signature and revision, and with a checksum that matches.
pub open spec fn header_valid(b: Seq<u8>) -> bool {
    b.len() >= GPT_HEADER_SIZE && le_u64(b, 0) == GPT_SIGNATURE && le_u32(b, 8) == GPT_REVISION
        && crc32_of(header_crc_input(b)) == le_u32(b, 16)
}

/// The header that a block holds, field by field.
pub open spec fn header_of(b: Seq<u8>) -> GptHeader {
    GptHeader {
        signature: le_u64(b, 0),
        revision: le_u32(b, 8),
        header_size: le_u32(b, 12),
        self_checksum: le_u32(b, 16),
        reserved: le_u32(b, 20),
        lba_self: le_u64(b, 24),
        lba_alt: le_u64(b, 32),
        lba_start: le_u64(b, 40),
        lba_end: le_u64(b, 48),
        guid: le_u128(b, 56),
        lba_table: le_u64(b, 72),
        num_entries: le_u32(b, 80),
        entry_size: le_u32(b, 84),
        table_crc: le_u32(b, 88),
    }
}

/// Why a block does not hold a valid header.
#[derive(Clone, Copy, Debug, PartialEq, Eq, Structural)]
pub enum LabelError {
    TooShort,
    Signature,
    Revision,
    Checksum,
}

impl GptHeader {
    /// Read and check the header held by `buf`.
    pub fn from_slice(buf: &[u8]) -> (r: Result<GptHeader, LabelError>)
        ensures
            match r {
                Ok(h) => header_valid(buf@) && h == header_of(buf@),
                Err(_) => !header_valid(buf@),
            },
    {
        if buf.len() < GPT_HEADER_SIZE {
            return Err(LabelError::TooShort);
        }
        if read_u64(buf, 0) != GPT_SIGNATURE {
            return Err(LabelError::Signature);
        }
        if read_u32(buf, 8) != GPT_REVISION {
            return Err(LabelError::Revision);
        }
        let mut zeroed: Vec<u8> = Vec::new();
        let mut i: usize = 0;
        while i < GPT_HEADER_SIZE
            invariant
                buf@.len() >= GPT_HEADER_SIZE,
                i <= GPT_HEADER_SIZE,
                zeroed@.len() == i,
                forall|j: int| 0 <= j < i ==> #[trigger] zeroed@[j] == if 16 <= j < 20 { 0u8 } else { buf@[j] },
            decreases GPT_HEADER_SIZE - i,
        {
            if 16 <= i && i < 20 {
                zeroed.push(0u8);
            } else {
                zeroed.push(buf[i]);
            }
            i = i + 1;
        }
        assert(zeroed@ =~= header_crc_input(buf@));
        if crc32(zeroed.as_slice()) != read_u32(buf, 16) {
            return Err(LabelError::Checksum);
        }
        Ok(GptHeader {
            signature: read_u64(buf, 0),
            revision: read_u32(buf, 8),
            header_size: read_u32(buf, 12),
            self_checksum: read_u32(buf, 16),
            reserved: read_u32(buf, 20),
            lba_self: read_u64(buf, 24),
            lba_alt: read_u64(buf, 32),
            lba_start: read_u64(buf, 40),
            lba_end: read_u64(buf, 48),
            guid: read_u128(buf, 56),
            lba_table: read_u64(buf, 72),
            num_entries: read_u32(buf, 80),
            entry_size: read_u32(buf, 84),
            table_crc: read_u32(buf, 88),
        })
    }
}

/// One partition entry.
#[derive(Debug)]
pub struct GptEntry {
    pub ent_type: u128,
    pub ent_guid: u128,
    pub ent_start: u64,
    pub ent_end: u64,
    pub ent_attr: u64,
    /// The partition name in UTF-16 code units.
    pub ent_name: Vec<u16>,
}

/// The plain-value view of a partition entry.
pub ghost struct GptEntryView {
    pub ent_type: u128,
    pub ent_guid: u128,
    pub ent_start: u64,
    pub ent_end: u64,
    pub ent_attr: u64,
    pub ent_name: Seq<u16>,
}

impl View for GptEntry {
    type V = GptEntryView;

    open spec fn view(&self) -> GptEntryView {
        GptEntryView {
            ent_type: self.ent_type,
            ent_guid: self.ent_guid,
            ent_start: self.ent_start,
            ent_end: self.ent_end,
            ent_attr: self.ent_attr,
            ent_name: self.ent_name@,
        }
    }
}

/// The entry held at byte `o` of a partition table.
pub open spec fn entry_of(b: Seq<u8>, o: int) -> GptEntryView {
    GptEntryView {
        ent_type: le_u128(b, o),
        ent_guid: le_u128(b, o + 16),
        ent_start: le_u64(b, o + 32),
        ent_end: le_u64(b, o + 40),
        ent_attr: le_u64(b, o + 48),
        ent_name: Seq::new(36, |k: int| (b[o + 56 + 2 * k] as int + b[o + 57 + 2 * k] as int * 0x100) as u16),
    }
}

/// The length of the partition table that a header describes.
pub open spec fn table_len(h: GptHeader) -> int {
    h.entry_size as int * h.num_entries as int
}

/// How many entries are kept: the first two at most.
pub open spec fn kept(h: GptHeader) -> int {
    if h.num_entries < 2 { h.num_entries as int } else { 2 }
}

/// Why a partition table is refused.
#[derive(Clone, Copy, Debug, PartialEq, Eq, Structural)]
pub enum TableError {
    /// The entries are shorter than an entry must be, or do not fit the
    /// bytes that were read.
    Invalid,
    /// The checksum of the entries does not match the header.
    Checksum,
}

/// What the partition table in `b` yields under header `h`: the first two
/// entries, once the entries fit and their checksum matches.
pub open spec fn table_spec(h: GptHeader, b: Seq<u8>) -> Result<Seq<GptEntryView>, TableError> {
    if h.entry_size < GPT_ENTRY_SIZE || table_len(h) > b.len() {
        Err(TableError::Invalid)
    } else if crc32_of(b.subrange(0, table_len(h))) != h.table_crc {
        Err(TableError::Checksum)
    } else {
        Ok(Seq::new(kept(h) as nat, |i: int| entry_of(b, i * h.entry_size)))
    }
}

fn read_entry(b: &[u8], o: usize) -> (r: GptEntry)
    requires
        o + GPT_ENTRY_SIZE <= b@.len() <= usize::MAX,
    ensures
        r@ == entry_of(b@, o as int),
{
    let mut name: Vec<u16> = Vec::new();
    let mut k: usize = 0;
    while k < 36
        invariant
            o + GPT_ENTRY_SIZE <= b@.len() <= usize::MAX,
            k <= 36,
            name@.len() == k,
            forall|j: int| 0 <= j < k ==> #[trigger] name@[j] == (b@[o + 56 + 2 * j] as int + b@[o + 57 + 2 * j] as int * 0x100) as u16,
        decreases 36 - k,
    {
        name.push(b[o + 56 + 2 * k] as u16 + b[o + 57 + 2 * k] as u16 * 0x100);
        k = k + 1;
    }
    let r = GptEntry {
        ent_type: read_u128(b, o),
        ent_guid: read_u128(b, o + 16),
        ent_start: read_u64(b, o + 32),
        ent_end: read_u64(b, o + 40),
        ent_attr: read_u64(b, o + 48),
        ent_name: name,
    };
    assert(r@.ent_name =~= entry_of(b@, o as int).ent_name);
    r
}

/// Read the partition table in `buf` under header `h`, keeping the first
/// two entries: some tools write 128 entries although only two are made.
pub fn parse_table(h: &GptHeader, buf: &[u8]) -> (r: Result<Vec<GptEntry>, TableError>)
    ensures
        match r {
            Ok(v) => table_spec(*h, buf@) matches Ok(s) && v@.map_values(|e: GptEntry| e@) == s,
            Err(e) => table_spec(*h, buf@) == Err::<Seq<GptEntryView>, TableError>(e),
        },
{
    assert(h.entry_size as int * h.num_entries as int <= u64::MAX) by (nonlinear_arith)
        requires
            h.entry_size <= u32::MAX,
            h.num_entries <= u32::MAX,
    ;
    let size = h.entry_size as u64 * h.num_entries as u64;
    if (h.entry_size as usize) < GPT_ENTRY_SIZE || size > buf.len() as u64 {
        return Err(TableError::Invalid);
    }
    let len = size as usize;
    let mut covered: Vec<u8> = Vec::new();
    let mut i: usize = 0;
    while i < len
        invariant
            len == table_len(*h),
            len <= buf@.len(),
            i <= len,
            covered@ == buf@.subrange(0, i as int),
        decreases len - i,
    {
        covered.push(buf[i]);
        assert(covered@ =~= buf@.subrange(0, i + 1));
        i = i + 1;
    }
    if crc32(covered.as_slice()) != h.table_crc {
        return Err(TableError::Checksum);
    }
    let n: usize = if h.num_entries < 2 { h.num_entries as usize } else { 2 };
    let mut entries: Vec<GptEntry> = Vec::new();
    let mut k: usize = 0;
    while k < n
        invariant
            n == kept(*h),
            h.entry_size >= GPT_ENTRY_SIZE,
            table_len(*h) <= buf@.len() <= usize::MAX,
            k <= n,
            entries@.len() == k,
            forall|j: int| 0 <= j < k ==> #[trigger] entries@[j]@ == entry_of(buf@, j * h.entry_size),
        decreases n - k,
    {
        assert(k * h.entry_size + h.entry_size <= h.num_entries as int * h.entry_size) by (nonlinear_arith)
            requires
                k < n,
                n <= h.num_entries,
        ;
        assert(h.num_entries as int * h.entry_size == table_len(*h)) by (nonlinear_arith);
        let o = k * h.entry_size as usize;
        entries.push(read_entry(buf, o));
        k = k + 1;
    }
    proof {
        let s = Seq::new(kept(*h) as nat, |i: int| entry_of(buf@, i * h.entry_size));
        assert(entries@.map_values(|e: GptEntry| e@) =~= s);
    }
    Ok(entries)
}

/// The header that a probe settles on: the primary if it is valid, else
/// the backup if that one is.
pub open spec fn chosen_header(primary: Seq<u8>, backup: Seq<u8>) -> Option<GptHeader> {
    if header_valid(primary) {
        Some(header_of(primary))
    } else if header_valid(backup) {
        Some(header_of(backup))
    } else {
        None
    }
}

} // verus!
