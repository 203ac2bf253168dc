//! A nexus child: one backend device of a nexus, with its state machine
//!
//! ```text
//!  Init --open--> Open --close--> Closed --open--> Open
//!   |              | ^ fault
//!   |              v |
//!   |           Faulted
//!   +--open-fail--> ConfigInvalid
//! ```
//!
//! The runtime's work (opening and claiming the device, reading blocks) is
//! done by the caller; the functions here take its answers.

use vstd::prelude::*;
use crate::nexus::label::{
    chosen_header, header_of, header_valid, parse_table, table_spec, GptEntry, GptEntryView,
    GptHeader, TableError,
};

verus! {

/// Why opening, probing or using a child failed.
#[derive(Clone, Copy, Debug, PartialEq, Eq, Structural)]
pub enum ChildError {
    ChildNotClosed,
    ChildTooSmall { child_size: u128, parent_size: u64 },
    OpenChild { errno: i32 },
    ClaimChild { errno: i32 },
    ChildReadOnly,
    ChildInvalid,
    LabelAlloc,
    LabelRead,
    LabelInvalid,
    PartitionTableAlloc,
    PartitionTableRead,
    InvalidPartitionTable,
    PartitionTableChecksum,
    OpenWithoutBdev,
}

/// Why an I/O on a child failed.
#[derive(Debug)]
pub enum ChildIoError {
    WriteError { name: String, errno: i32 },
    ReadError { name: String, errno: i32 },
    InvalidDescriptor { name: String },
}

/// The state of a child.
#[derive(Clone, Copy, Debug, PartialEq, Eq, Structural)]
pub enum ChildState {
    /// not opened yet, but about to be
    Init,
    /// its properties make it unfit for the parent
    ConfigInvalid,
    /// open for reads and writes
    Open,
    /// closed by its parent
    Closed,
    /// a non-fatal error has occurred on it
    Faulted,
}

/// The name of a child state.
pub open spec fn state_name(s: ChildState) -> Seq<char> {
    match s {
        ChildState::Init => "init"@,
        ChildState::ConfigInvalid => "configInvalid"@,
        ChildState::Open => "open"@,
        ChildState::Faulted => "faulted"@,
        ChildState::Closed => "closed"@,
    }
}

impl ChildState {
    /// The name of the state.
    pub fn name(&self) -> (r: &'static str)
        ensures
            r@ == state_name(*self),
    {
        match self {
            ChildState::Init => "init",
            ChildState::ConfigInvalid => "configInvalid",
            ChildState::Open => "open",
            ChildState::Faulted => "faulted",
            ChildState::Closed => "closed",
        }
    }
}

/// The geometry of a backend block device.
#[derive(Clone, Debug)]
pub struct Bdev {
    pub name: String,
    pub block_len: u32,
    pub num_blocks: u64,
}

impl Bdev {
    pub open spec fn size(&self) -> int {
        self.block_len as int * self.num_blocks as int
    }

    /// The size of the device in bytes.
    pub fn size_in_bytes(&self) -> (r: u128)
        ensures
            r == self.size(),
    {
        assert(self.block_len as int * self.num_blocks as int <= u128::MAX) by (nonlinear_arith)
            requires
                self.block_len <= u32::MAX,
                self.num_blocks <= u64::MAX,
        ;
        self.block_len as u128 * self.num_blocks as u128
    }
}

/// An open descriptor of a backend device, as the runtime's handle.
#[derive(Clone, Copy, Debug, PartialEq, Eq, Structural)]
pub struct Descriptor {
    pub handle: u64,
}

/// How the runtime failed to open and claim a device: the descriptor could
/// not be opened, or it was opened but the claim for the nexus module
/// failed.
#[derive(Clone, Copy, Debug, PartialEq, Eq, Structural)]
pub enum OpenFailure {
    Open { errno: i32 },
    Claim { descriptor: Descriptor, errno: i32 },
}

/// A child of a nexus.
#[derive(Debug)]
pub struct NexusChild {
    /// the nexus it belongs to
    pub parent: String,
    /// the URI it was made from; the bdev's name may differ
    pub name: String,
    pub bdev: Option<Bdev>,
    pub state: ChildState,
    pub repairing: bool,
    /// the descriptor opened on the device
    pub descriptor: Option<Descriptor>,
    /// whether the device is claimed for the nexus module
    pub claimed: bool,
}

/// Whether a child in this state may be read and written.
pub open spec fn rw_state(s: ChildState) -> bool {
    s == ChildState::Open || s == ChildState::Faulted
}

/// A request for the runtime to read or write through a descriptor.
#[derive(Clone, Copy, Debug, PartialEq, Eq, Structural)]
pub struct IoRequest {
    pub descriptor: Descriptor,
    pub offset: u64,
    pub len: u64,
}

impl NexusChild {
    /// A child holds a descriptor exactly when it is open or faulted, and a
    /// claim only on a device that it holds a descriptor of.
    pub open spec fn wf(&self) -> bool {
        &&& self.descriptor is Some <==> rw_state(self.state)
        &&& self.claimed ==> self.descriptor is Some && self.bdev is Some
    }

    /// A new child, not opened yet.
    pub fn new(name: String, parent: String, bdev: Option<Bdev>) -> (r: NexusChild)
        ensures
            r.wf(),
            r.name == name,
            r.parent == parent,
            r.bdev == bdev,
            r.state == ChildState::Init,
            r.descriptor is None,
            !r.claimed,
            !r.repairing,
    {
        NexusChild { name, bdev, parent, state: ChildState::Init, descriptor: None, claimed: false, repairing: false }
    }

    /// Whether the child can be read and written.
    pub fn can_rw(&self) -> (r: bool)
        ensures
            r == rw_state(self.state),
    {
        self.state == ChildState::Open || self.state == ChildState::Faulted
    }

    /// Open the child read-write and claim its device for the nexus. Only a
    /// closed child, or one not opened yet, can be opened, and its device
    /// must be at least as large as the parent. `outcome` is the runtime's
    /// answer to opening and claiming the device; it is looked at only once
    /// those checks pass.
    pub fn open(&mut self, parent_size: u64, outcome: Result<Descriptor, OpenFailure>) -> (r: Result<String, ChildError>)
        requires
            old(self).wf(),
        ensures
            final(self).wf(),
            final(self).name == old(self).name,
            final(self).parent == old(self).parent,
            final(self).bdev == old(self).bdev,
            final(self).repairing == old(self).repairing,
            ({
                let c = *old(self);
                if c.state != ChildState::Closed && c.state != ChildState::Init {
                    r == Err::<String, ChildError>(ChildError::ChildNotClosed) && *final(self) == c
                } else if c.bdev is None {
                    r == Err::<String, ChildError>(ChildError::OpenWithoutBdev) && *final(self) == c
                } else if parent_size > c.bdev->Some_0.size() {
                    r == Err::<String, ChildError>(
                        ChildError::ChildTooSmall { child_size: c.bdev->Some_0.size() as u128, parent_size },
                    ) && final(self).state == ChildState::ConfigInvalid && final(self).descriptor is None
                    && !final(self).claimed
                } else {
                    match outcome {
                        Ok(d) => r matches Ok(n) && n@ == c.name@ && final(self).state == ChildState::Open
                            && final(self).descriptor == Some(d) && final(self).claimed,
                        Err(OpenFailure::Open { errno }) => r == Err::<String, ChildError>(
                            ChildError::OpenChild { errno },
                        ) && *final(self) == c,
                        Err(OpenFailure::Claim { descriptor, errno }) => r == Err::<String, ChildError>(
                            ChildError::ClaimChild { errno },
                        ) && final(self).state == ChildState::Faulted && final(self).descriptor == Some(descriptor)
                            && !final(self).claimed,
                    }
                }
            }),
    {
        if self.state != ChildState::Closed && self.state != ChildState::Init {
            return Err(ChildError::ChildNotClosed);
        }
        let child_size = match &self.bdev {
            Some(bdev) => bdev.size_in_bytes(),
            None => {
                return Err(ChildError::OpenWithoutBdev);
            },
        };
        if parent_size as u128 > child_size {
            self.state = ChildState::ConfigInvalid;
            return Err(ChildError::ChildTooSmall { child_size, parent_size });
        }
        match outcome {
            Ok(descriptor) => {
                self.descriptor = Some(descriptor);
                self.claimed = true;
                self.state = ChildState::Open;
                Ok(self.name.clone())
            },
            Err(OpenFailure::Open { errno }) => Err(ChildError::OpenChild { errno }),
            Err(OpenFailure::Claim { descriptor, errno }) => {
                self.descriptor = Some(descriptor);
                self.claimed = false;
                self.state = ChildState::Faulted;
                Err(ChildError::ClaimChild { errno })
            },
        }
    }

    /// The device whose claim for the nexus module is to be released when
    /// the child closes: its device, if the child holds a claim on it.
    pub fn claim_to_release(&self) -> (r: Option<String>)
        requires
            self.wf(),
        ensures
            match r {
                Some(n) => self.claimed && (self.bdev matches Some(b) && n@ == b.name@),
                None => !self.claimed,
            },
    {
        if self.claimed {
            match &self.bdev {
                Some(b) => Some(b.name.clone()),
                None => None,
            }
        } else {
            None
        }
    }

    /// Close the child: the claim that `claim_to_release` names is released
    /// by the host, and the descriptor dropped. The child stays so that it
    /// can be opened again.
    pub fn close(&mut self) -> (r: ChildState)
        ensures
            final(self).wf(),
            final(self).descriptor is None,
            !final(self).claimed,
            final(self).state == ChildState::Closed,
            r == ChildState::Closed,
            final(self).name == old(self).name,
            final(self).parent == old(self).parent,
            final(self).bdev == old(self).bdev,
            final(self).repairing == old(self).repairing,
    {
        self.claimed = false;
        self.descriptor = None;
        self.state = ChildState::Closed;
        self.state
    }

    /// Mark the child as faulted; it keeps its descriptor.
    pub fn fault(&mut self)
        requires
            old(self).wf(),
            rw_state(old(self).state),
        ensures
            final(self).wf(),
            final(self).state == ChildState::Faulted,
            final(self).descriptor == old(self).descriptor,
            final(self).claimed == old(self).claimed,
            final(self).name == old(self).name,
            final(self).parent == old(self).parent,
            final(self).bdev == old(self).bdev,
            final(self).repairing == old(self).repairing,
    {
        self.state = ChildState::Faulted;
    }

    /// The name of the device to destroy with this closed child, if it has
    /// one.
    pub fn destroy(&self) -> (r: Option<String>)
        requires
            self.state == ChildState::Closed,
        ensures
            match r {
                Some(n) => self.bdev matches Some(b) && n@ == b.name@,
                None => self.bdev is None,
            },
    {
        match &self.bdev {
            Some(bdev) => Some(bdev.name.clone()),
            None => None,
        }
    }

    /// The request for writing `len` bytes at `offset`, or
    /// `InvalidDescriptor` when the child holds no descriptor.
    pub fn write_at(&self, offset: u64, len: u64) -> (r: Result<IoRequest, ChildIoError>)
        ensures
            match r {
                Ok(q) => self.descriptor == Some(q.descriptor) && q.offset == offset && q.len == len,
                Err(e) => self.descriptor is None && (e matches ChildIoError::InvalidDescriptor { name } && name@ == self.name@),
            },
    {
        match self.descriptor {
            Some(descriptor) => Ok(IoRequest { descriptor, offset, len }),
            None => Err(ChildIoError::InvalidDescriptor { name: self.name.clone() }),
        }
    }

    /// The result of a write, given the runtime's answer.
    pub fn write_done(&self, outcome: Result<usize, i32>) -> (r: Result<usize, ChildIoError>)
        ensures
            match outcome {
                Ok(n) => r == Ok::<usize, ChildIoError>(n),
                Err(errno) => r matches Err(ChildIoError::WriteError { name, errno: e }) && name@ == self.name@ && e == errno,
            },
    {
        match outcome {
            Ok(n) => Ok(n),
            Err(errno) => Err(ChildIoError::WriteError { name: self.name.clone(), errno }),
        }
    }

    /// The request for reading `len` bytes at `offset`, or
    /// `InvalidDescriptor` when the child holds no descriptor.
    pub fn read_at(&self, offset: u64, len: u64) -> (r: Result<IoRequest, ChildIoError>)
        ensures
            match r {
                Ok(q) => self.descriptor == Some(q.descriptor) && q.offset == offset && q.len == len,
                Err(e) => self.descriptor is None && (e matches ChildIoError::InvalidDescriptor { name } && name@ == self.name@),
            },
    {
        match self.descriptor {
            Some(descriptor) => Ok(IoRequest { descriptor, offset, len }),
            None => Err(ChildIoError::InvalidDescriptor { name: self.name.clone() }),
        }
    }

    /// The result of a read, given the runtime's answer.
    pub fn read_done(&self, outcome: Result<usize, i32>) -> (r: Result<usize, ChildIoError>)
        ensures
            match outcome {
                Ok(n) => r == Ok::<usize, ChildIoError>(n),
                Err(errno) => r matches Err(ChildIoError::ReadError { name, errno: e }) && name@ == self.name@ && e == errno,
            },
    {
        match outcome {
            Ok(n) => Ok(n),
            Err(errno) => Err(ChildIoError::ReadError { name: self.name.clone(), errno }),
        }
    }
}

/// A span of a device to read, in bytes.
#[derive(Clone, Copy, Debug, PartialEq, Eq, Structural)]
pub struct IoSpan {
    pub offset: u64,
    pub len: u64,
}

/// The label found on a child: its GPT header and its first two partitions.
#[derive(Debug)]
pub struct NexusLabel {
    pub primary: GptHeader,
    pub partitions: Vec<GptEntry>,
}

/// The geometry under which a child's label is probed. A probe reads the
/// primary header at LBA 1; if that is invalid it reads the backup at the
/// last block; it then reads the partition table that the header points to.
#[derive(Clone, Copy, Debug, PartialEq, Eq, Structural)]
pub struct LabelProbe {
    pub block_size: u32,
    pub num_blocks: u64,
}

/// What a probe does once it has the primary header's block.
#[derive(Debug)]
pub enum HeaderStep {
    Found(GptHeader),
    ReadBackup(IoSpan),
}

/// Where the partition table that `h` describes lies: from LBA `lba_table`,
/// enough whole blocks to hold `entry_size * num_entries` bytes (and one
/// more); `None` where that span cannot be addressed.
pub open spec fn table_span(g: LabelProbe, h: GptHeader) -> Option<IoSpan> {
    let blocks = (h.entry_size as int * h.num_entries as int) / g.block_size as int + 1;
    let len = blocks * g.block_size;
    let offset = h.lba_table as int * g.block_size as int;
    if len <= u64::MAX && offset <= u64::MAX {
        Some(IoSpan { offset: offset as u64, len: len as u64 })
    } else {
        None
    }
}

/// What a whole probe yields, given the bytes of the primary header's
/// block, of the backup header's block and of the partition table.
pub open spec fn probe_outcome(g: LabelProbe, primary: Seq<u8>, backup: Seq<u8>, table: Seq<u8>) -> Result<(GptHeader, Seq<GptEntryView>), ChildError> {
    match chosen_header(primary, backup) {
        None => Err(ChildError::LabelInvalid),
        Some(h) => if table_span(g, h) is None {
            Err(ChildError::InvalidPartitionTable)
        } else {
            match table_spec(h, table) {
                Ok(s) => Ok((h, s)),
                Err(TableError::Invalid) => Err(ChildError::InvalidPartitionTable),
                Err(TableError::Checksum) => Err(ChildError::PartitionTableChecksum),
            }
        },
    }
}

/// A valid backup header stands in for an invalid primary one: the probe
/// yields the same label as when both copies are valid and equal.
pub proof fn lemma_probe_backup(g: LabelProbe, invalid_primary: Seq<u8>, copy: Seq<u8>, table: Seq<u8>)
    requires
        !header_valid(invalid_primary),
        header_valid(copy),
    ensures
        probe_outcome(g, invalid_primary, copy, table) == probe_outcome(g, copy, copy, table),
{
}

impl LabelProbe {
    /// The block size is not zero, there is a last block apart from LBA 1,
    /// and every block can be addressed in bytes.
    pub open spec fn wf(&self) -> bool {
        self.block_size > 0 && self.num_blocks >= 2 && self.block_size as int * self.num_blocks as int <= u64::MAX
    }

    /// The primary header: the block at LBA 1.
    pub fn primary(&self) -> (r: IoSpan)
        requires
            self.wf(),
        ensures
            r.offset == self.block_size,
            r.len == self.block_size,
    {
        IoSpan { offset: self.block_size as u64, len: self.block_size as u64 }
    }

    /// The backup header: the last block.
    pub fn backup(&self) -> (r: IoSpan)
        requires
            self.wf(),
        ensures
            r.offset == (self.num_blocks - 1) * self.block_size,
            r.len == self.block_size,
    {
        assert((self.num_blocks - 1) * self.block_size <= self.block_size as int * self.num_blocks as int) by (nonlinear_arith)
            requires
                self.num_blocks >= 2,
        ;
        IoSpan { offset: (self.num_blocks - 1) * self.block_size as u64, len: self.block_size as u64 }
    }

    /// Given the primary header's block: its header if valid, else the read
    /// of the backup.
    pub fn on_primary(&self, data: Result<Vec<u8>, ChildIoError>) -> (r: Result<HeaderStep, ChildError>)
        requires
            self.wf(),
        ensures
            match data {
                Err(_) => r == Err::<HeaderStep, ChildError>(ChildError::LabelRead),
                Ok(b) => if header_valid(b@) {
                    r matches Ok(HeaderStep::Found(h)) && h == header_of(b@)
                } else {
                    r matches Ok(HeaderStep::ReadBackup(s)) && s.offset == (self.num_blocks - 1)
                        * self.block_size && s.len == self.block_size
                },
            },
    {
        match data {
            Err(_) => Err(ChildError::LabelRead),
            Ok(buf) => match GptHeader::from_slice(buf.as_slice()) {
                Ok(h) => Ok(HeaderStep::Found(h)),
                Err(_) => Ok(HeaderStep::ReadBackup(self.backup())),
            },
        }
    }

    /// Given the backup header's block: its header, or `LabelInvalid` as
    /// both copies are invalid.
    pub fn on_backup(&self, data: Result<Vec<u8>, ChildIoError>) -> (r: Result<GptHeader, ChildError>)
        ensures
            match data {
                Err(_) => r == Err::<GptHeader, ChildError>(ChildError::LabelRead),
                Ok(b) => if header_valid(b@) {
                    r == Ok::<GptHeader, ChildError>(header_of(b@))
                } else {
                    r == Err::<GptHeader, ChildError>(ChildError::LabelInvalid)
                },
            },
    {
        match data {
            Err(_) => Err(ChildError::LabelRead),
            Ok(buf) => match GptHeader::from_slice(buf.as_slice()) {
                Ok(h) => Ok(h),
                Err(_) => Err(ChildError::LabelInvalid),
            },
        }
    }

    /// The read of the partition table that `h` describes.
    pub fn table_read(&self, h: &GptHeader) -> (r: Result<IoSpan, ChildError>)
        requires
            self.wf(),
        ensures
            match table_span(*self, *h) {
                Some(s) => r == Ok::<IoSpan, ChildError>(s),
                None => r == Err::<IoSpan, ChildError>(ChildError::InvalidPartitionTable),
            },
    {
        let bs = self.block_size as u128;
        assert(h.entry_size as int * h.num_entries as int <= u64::MAX) by (nonlinear_arith)
            requires
                h.entry_size <= u32::MAX,
                h.num_entries <= u32::MAX,
        ;
        let bytes = h.entry_size as u128 * h.num_entries as u128;
        let blocks = bytes / bs + 1;
        assert(blocks * bs <= (bytes + bs) as int) by (nonlinear_arith)
            requires
                blocks == bytes / bs + 1,
                bs > 0,
        ;
        assert(h.lba_table as int * bs <= u64::MAX as int * u32::MAX as int) by (nonlinear_arith)
            requires
                h.lba_table <= u64::MAX,
                bs <= u32::MAX,
        ;
        let len = blocks * bs;
        let offset = h.lba_table as u128 * bs;
        if len > u64::MAX as u128 || offset > u64::MAX as u128 {
            return Err(ChildError::InvalidPartitionTable);
        }
        Ok(IoSpan { offset: offset as u64, len: len as u64 })
    }

    /// Given the partition table's bytes: the label, once the table is
    /// valid and its checksum matches the header's.
    pub fn on_table(&self, h: GptHeader, data: Result<Vec<u8>, ChildIoError>) -> (r: Result<NexusLabel, ChildError>)
        ensures
            match data {
                Err(_) => r is Err && r->Err_0 == ChildError::PartitionTableRead,
                Ok(b) => match table_spec(h, b@) {
                    Ok(s) => r matches Ok(l) && l.primary == h && l.partitions@.map_values(|e: GptEntry| e@) == s,
                    Err(TableError::Invalid) => r is Err && r->Err_0 == ChildError::InvalidPartitionTable,
                    Err(TableError::Checksum) => r is Err && r->Err_0 == ChildError::PartitionTableChecksum,
                },
            },
    {
        match data {
            Err(_) => Err(ChildError::PartitionTableRead),
            Ok(buf) => match parse_table(&h, buf.as_slice()) {
                Ok(partitions) => Ok(NexusLabel { primary: h, partitions }),
                Err(TableError::Invalid) => Err(ChildError::InvalidPartitionTable),
                Err(TableError::Checksum) => Err(ChildError::PartitionTableChecksum),
            },
        }
    }
}

impl NexusChild {
    /// Start probing the label: a child that cannot be read is refused, as
    /// is one without a device, a descriptor or a usable geometry.
    pub fn probe_label(&self) -> (r: Result<LabelProbe, ChildError>)
        ensures
            !rw_state(self.state) ==> r == Err::<LabelProbe, ChildError>(ChildError::ChildReadOnly),
            rw_state(self.state) ==> match r {
                Ok(g) => g.wf() && self.descriptor is Some && (self.bdev matches Some(b) && g.block_size
                    == b.block_len && g.num_blocks == b.num_blocks),
                Err(e) => e == ChildError::ChildInvalid && (self.descriptor is None || self.bdev is None
                    || !(LabelProbe { block_size: self.bdev->Some_0.block_len, num_blocks: self.bdev->Some_0.num_blocks }).wf()),
            },
    {
        if !self.can_rw() {
            return Err(ChildError::ChildReadOnly);
        }
        if self.descriptor.is_none() {
            return Err(ChildError::ChildInvalid);
        }
        match &self.bdev {
            None => Err(ChildError::ChildInvalid),
            Some(bdev) => {
                let g = LabelProbe { block_size: bdev.block_len, num_blocks: bdev.num_blocks };
                if bdev.block_len == 0 || bdev.num_blocks < 2 || bdev.size_in_bytes() > u64::MAX as u128 {
                    return Err(ChildError::ChildInvalid);
                }
                Ok(g)
            },
        }
    }
}

} // verus!
