use vstd::prelude::*;

verus! {

/// A one-byte identifier naming a data kind exchanged with the device.
///
/// Host-originated kinds occupy the block starting at `0xAA`; the relay kinds
/// occupy the block starting at `0xCC`. The numbering is shared with the
/// firmware and must not change independently of it.
#[derive(Clone, Copy, Debug, PartialEq, Eq, Structural)]
pub enum DataType {
    Time,
    Volume,
    Layout,
    MediaArtist,
    MediaTitle,
    Date,
    CPUUsage,
    RAMUsage,
    NetworkRX,
    NetworkTX,
    Space,
    EncoderMode,
    RelayFromDevice,
    RelayToDevice,
}

/// First tag of the host data block.
pub const DATA_BLOCK_START: u8 = 0xAA;

/// First tag of the relay block.
pub const RELAY_BLOCK_START: u8 = 0xCC;

impl DataType {
    /// The wire byte of this kind.
    pub open spec fn spec_tag(self) -> u8 {
        match self {
            DataType::Time => 0xAA,
            DataType::Volume => 0xAB,
            DataType::Layout => 0xAC,
            DataType::MediaArtist => 0xAD,
            DataType::MediaTitle => 0xAE,
            DataType::Date => 0xAF,
            DataType::CPUUsage => 0xB0,
            DataType::RAMUsage => 0xB1,
            DataType::NetworkRX => 0xB2,
            DataType::NetworkTX => 0xB3,
            DataType::Space => 0xB4,
            DataType::EncoderMode => 0xB5,
            DataType::RelayFromDevice => 0xCC,
            DataType::RelayToDevice => 0xCD,
        }
    }

    /// Whether this kind belongs to the relay block.
    pub open spec fn is_relay(self) -> bool {
        self is RelayFromDevice || self is RelayToDevice
    }

    /// Returns the wire byte of this kind.
    pub fn tag(&self) -> (r: u8)
        ensures
            r == self.spec_tag(),
    {
        match self {
            DataType::Time => DATA_BLOCK_START,
            DataType::Volume => DATA_BLOCK_START + 1,
            DataType::Layout => DATA_BLOCK_START + 2,
            DataType::MediaArtist => DATA_BLOCK_START + 3,
            DataType::MediaTitle => DATA_BLOCK_START + 4,
            DataType::Date => DATA_BLOCK_START + 5,
            DataType::CPUUsage => DATA_BLOCK_START + 6,
            DataType::RAMUsage => DATA_BLOCK_START + 7,
            DataType::NetworkRX => DATA_BLOCK_START + 8,
            DataType::NetworkTX => DATA_BLOCK_START + 9,
            DataType::Space => DATA_BLOCK_START + 10,
            DataType::EncoderMode => DATA_BLOCK_START + 11,
            DataType::RelayFromDevice => RELAY_BLOCK_START,
            DataType::RelayToDevice => RELAY_BLOCK_START + 1,
        }
    }

    /// Reads a wire byte back as a kind; `None` for a byte that names no kind.
    pub fn from_tag(b: u8) -> (r: Option<DataType>)
        ensures
            r matches Some(d) ==> d.spec_tag() == b,
            r is None ==> forall|d: DataType| d.spec_tag() != b,
    {
        if DATA_BLOCK_START <= b && b <= DATA_BLOCK_START + 11 {
            let k: u8 = b - DATA_BLOCK_START;
            if k == 0 {
                Some(DataType::Time)
            } else if k == 1 {
                Some(DataType::Volume)
            } else if k == 2 {
                Some(DataType::Layout)
            } else if k == 3 {
                Some(DataType::MediaArtist)
            } else if k == 4 {
                Some(DataType::MediaTitle)
            } else if k == 5 {
                Some(DataType::Date)
            } else if k == 6 {
                Some(DataType::CPUUsage)
            } else if k == 7 {
                Some(DataType::RAMUsage)
            } else if k == 8 {
                Some(DataType::NetworkRX)
            } else if k == 9 {
                Some(DataType::NetworkTX)
            } else if k == 10 {
                Some(DataType::Space)
            } else {
                Some(DataType::EncoderMode)
            }
        } else if b == RELAY_BLOCK_START {
            Some(DataType::RelayFromDevice)
        } else if b == RELAY_BLOCK_START + 1 {
            Some(DataType::RelayToDevice)
        } else {
            None
        }
    }
}

/// Distinct kinds have distinct wire bytes, and the relay block never shares
/// a byte with the host data block.
pub proof fn lemma_tags_distinct(a: DataType, b: DataType)
    ensures
        a.spec_tag() == b.spec_tag() ==> a == b,
        a.is_relay() != b.is_relay() ==> a.spec_tag() != b.spec_tag(),
        a.is_relay() <==> a.spec_tag() >= RELAY_BLOCK_START,
{
}

} // verus!
