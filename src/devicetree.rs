//! Records of the flattened device-tree format (all fields big-endian).
use vstd::prelude::*;

verus! {

/// The magic number that opens a device-tree blob.
pub const FDT_MAGIC: u32 = 0xD00D_FEED;

/// Size in bytes of the blob header.
pub const FDT_HEADER_SIZE: usize = 40;

/// Size in bytes of a property record.
pub const FDT_PROPERTY_SIZE: usize = 8;

/// The big-endian 32-bit word at `off` in `b`.
pub open spec fn be_u32(b: Seq<u8>, off: int) -> u32 {
    (b[off] as int * 0x100_0000 + b[off + 1] as int * 0x1_0000 + b[off + 2] as int * 0x100
        + b[off + 3] as int) as u32
}

/// Reads the big-endian 32-bit word at `off`.
pub fn read_be_u32(b: &[u8], off: usize) -> (r: u32)
    requires
        off + 4 <= b@.len(),
    ensures
        r == be_u32(b@, off as int),
{
    (b[off] as u32) * 0x100_0000 + (b[off + 1] as u32) * 0x1_0000 + (b[off + 2] as u32) * 0x100
        + (b[off + 3] as u32)
}

/// The header at the start of a device-tree blob.
#[derive(Clone, Copy, Debug)]
pub struct FdtHeader {
    pub magic: u32,
    pub totalsize: u32,
    pub off_dt_struct: u32,
    pub off_dt_strings: u32,
    pub off_mem_rsvmap: u32,
    pub version: u32,
    pub last_comp_version: u32,
    pub boot_cpuid_phys: u32,
    pub size_dt_strings: u32,
    pub size_dt_struct: u32,
}

/// The header read from the first 40 bytes of `b`.
pub open spec fn header_spec(b: Seq<u8>) -> FdtHeader {
    FdtHeader {
        magic: be_u32(b, 0),
        totalsize: be_u32(b, 4),
        off_dt_struct: be_u32(b, 8),
        off_dt_strings: be_u32(b, 12),
        off_mem_rsvmap: be_u32(b, 16),
        version: be_u32(b, 20),
        last_comp_version: be_u32(b, 24),
        boot_cpuid_phys: be_u32(b, 28),
        size_dt_strings: be_u32(b, 32),
        size_dt_struct: be_u32(b, 36),
    }
}

impl FdtHeader {
    /// Reads a header from the start of `b`; `None` when `b` is shorter
    /// than a header.
    pub fn from_bytes(b: &[u8]) -> (r: Option<FdtHeader>)
        ensures
            b@.len() < 40 ==> r.is_none(),
            b@.len() >= 40 ==> r == Some(header_spec(b@)),
    {
        if b.len() < FDT_HEADER_SIZE {
            return None;
        }
        Some(FdtHeader {
            magic: read_be_u32(b, 0),
            totalsize: read_be_u32(b, 4),
            off_dt_struct: read_be_u32(b, 8),
            off_dt_strings: read_be_u32(b, 12),
            off_mem_rsvmap: read_be_u32(b, 16),
            version: read_be_u32(b, 20),
            last_comp_version: read_be_u32(b, 24),
            boot_cpuid_phys: read_be_u32(b, 28),
            size_dt_strings: read_be_u32(b, 32),
            size_dt_struct: read_be_u32(b, 36),
        })
    }

    /// The magic number of the FDT header. This should be `0xd00dfeed`.
    pub fn magic(&self) -> (r: u32)
        ensures
            r == self.magic,
    {
        self.magic
    }

    /// Whether the magic number is valid.
    pub fn is_valid(&self) -> (r: bool)
        ensures
            r == (self.magic == FDT_MAGIC),
    {
        self.magic() == FDT_MAGIC
    }

    /// The total size in bytes of the FDT.
    pub fn totalsize(&self) -> (r: u32)
        ensures
            r == self.totalsize,
    {
        self.totalsize
    }

    /// The offset in bytes of the structure block from the beginning of the header.
    pub fn off_dt_struct(&self) -> (r: u32)
        ensures
            r == self.off_dt_struct,
    {
        self.off_dt_struct
    }

    /// The offset in bytes of the strings block from the beginning of the header.
    pub fn off_dt_strings(&self) -> (r: u32)
        ensures
            r == self.off_dt_strings,
    {
        self.off_dt_strings
    }

    /// The offset in bytes of the memory reservation block from the beginning of the header.
    pub fn off_mem_rsvmap(&self) -> (r: u32)
        ensures
            r == self.off_mem_rsvmap,
    {
        self.off_mem_rsvmap
    }

    /// The version of the FDT. This should be `17`.
    pub fn version(&self) -> (r: u32)
        ensures
            r == self.version,
    {
        self.version
    }

    /// The last compatible version of the FDT. This should be `16`.
    pub fn last_comp_version(&self) -> (r: u32)
        ensures
            r == self.last_comp_version,
    {
        self.last_comp_version
    }

    /// The physical ID of the system's boot CPU.
    pub fn boot_cpuid_phys(&self) -> (r: u32)
        ensures
            r == self.boot_cpuid_phys,
    {
        self.boot_cpuid_phys
    }

    /// The length in bytes of the strings block.
    pub fn size_dt_strings(&self) -> (r: u32)
        ensures
            r == self.size_dt_strings,
    {
        self.size_dt_strings
    }

    /// The length in bytes of the structure block.
    pub fn size_dt_struct(&self) -> (r: u32)
        ensures
            r == self.size_dt_struct,
    {
        self.size_dt_struct
    }
}

/// A token of the structure block.
#[derive(Clone, Copy, Debug, PartialEq, Eq, Structural)]
pub enum StructureBlockToken {
    BeginNode,
    EndNode,
    Prop,
    Nop,
    End,
}

/// The token a 32-bit value encodes, if any.
pub open spec fn token_of(v: u32) -> Option<StructureBlockToken> {
    if v == 1 {
        Some(StructureBlockToken::BeginNode)
    } else if v == 2 {
        Some(StructureBlockToken::EndNode)
    } else if v == 3 {
        Some(StructureBlockToken::Prop)
    } else if v == 4 {
        Some(StructureBlockToken::Nop)
    } else if v == 9 {
        Some(StructureBlockToken::End)
    } else {
        None
    }
}

/// The encoding of a token.
pub open spec fn token_value(t: StructureBlockToken) -> u32 {
    match t {
        StructureBlockToken::BeginNode => 1,
        StructureBlockToken::EndNode => 2,
        StructureBlockToken::Prop => 3,
        StructureBlockToken::Nop => 4,
        StructureBlockToken::End => 9,
    }
}

impl StructureBlockToken {
    /// The token `value` encodes; the value itself back when it encodes none.
    pub fn try_from(value: u32) -> (r: Result<StructureBlockToken, u32>)
        ensures
            token_of(value) matches Some(t) ==> r == Ok::<StructureBlockToken, u32>(t),
            token_of(value) is None ==> r == Err::<StructureBlockToken, u32>(value),
    {
        match value {
            1 => Ok(StructureBlockToken::BeginNode),
            2 => Ok(StructureBlockToken::EndNode),
            3 => Ok(StructureBlockToken::Prop),
            4 => Ok(StructureBlockToken::Nop),
            9 => Ok(StructureBlockToken::End),
            _ => Err(value),
        }
    }

    /// The encoding of this token.
    pub fn value(self) -> (r: u32)
        ensures
            r == token_value(self),
    {
        match self {
            StructureBlockToken::BeginNode => 1,
            StructureBlockToken::EndNode => 2,
            StructureBlockToken::Prop => 3,
            StructureBlockToken::Nop => 4,
            StructureBlockToken::End => 9,
        }
    }
}

/// Encoding a token and decoding the result gives the token back, and a
/// value that decodes to a token is that token's encoding.
pub proof fn lemma_token_round_trip(t: StructureBlockToken, v: u32)
    ensures
        token_of(token_value(t)) == Some(t),
        token_of(v) matches Some(u) ==> token_value(u) == v,
{
}

/// The header of a property in the structure block.
#[derive(Clone, Copy, Debug)]
pub struct FdtProperty {
    pub len: u32,
    pub nameoff: u32,
}

impl FdtProperty {
    /// Reads a property header from the start of `b`; `None` when `b` is
    /// shorter than one.
    pub fn from_bytes(b: &[u8]) -> (r: Option<FdtProperty>)
        ensures
            b@.len() < 8 ==> r.is_none(),
            b@.len() >= 8 ==> r == Some(FdtProperty { len: be_u32(b@, 0), nameoff: be_u32(b@, 4) }),
    {
        if b.len() < FDT_PROPERTY_SIZE {
            return None;
        }
        Some(FdtProperty { len: read_be_u32(b, 0), nameoff: read_be_u32(b, 4) })
    }

    /// The length in bytes of the property's value.
    pub fn len(&self) -> (r: u32)
        ensures
            r == self.len,
    {
        self.len
    }

    /// The offset of the property's name in the strings block.
    pub fn nameoff(&self) -> (r: u32)
        ensures
            r == self.nameoff,
    {
        self.nameoff
    }
}

} // verus!
