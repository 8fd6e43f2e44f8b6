//! The control record exchanged with the driver, in plain values.
use vstd::prelude::*;

verus! {

/// Layout version of the control record.
pub const MDIOVERSION: u32 = 0;

/// Type code of a memory-backed device.
pub const MD_MALLOC: u32 = 0;
/// Type code of a file-backed device.
pub const MD_VNODE: u32 = 2;
/// Type code of a swap-backed device.
pub const MD_SWAP: u32 = 3;
/// Type code of a device that stores nothing.
pub const MD_NULL: u32 = 4;

/// The failures of the library's operations.
#[derive(Clone, Copy, Debug, PartialEq, Eq, Structural)]
pub enum MdError {
    /// The backing path and its terminator do not fit the record's buffer.
    PathTooLong,
    /// The label and its terminator do not fit the record's buffer.
    LabelTooLong,
    /// The system reported this error number.
    Os(i32),
}

/// One control record. The two buffers, where present, are the NUL-padded
/// backing path and label; where absent the record carries no pointer.
#[derive(Debug)]
pub struct MdRecord {
    pub version: u32,
    pub unit: u32,
    pub kind: u32,
    pub file: Option<Vec<u8>>,
    pub mediasize: i64,
    pub sectorsize: u32,
    pub options: u32,
    pub base: u64,
    pub fwheads: i32,
    pub fwsectors: i32,
    pub label: Option<Vec<u8>>,
}

/// The mathematical value of a control record.
pub struct RecordView {
    pub version: u32,
    pub unit: u32,
    pub kind: u32,
    pub file: Option<Seq<u8>>,
    pub mediasize: i64,
    pub sectorsize: u32,
    pub options: u32,
    pub base: u64,
    pub fwheads: i32,
    pub fwsectors: i32,
    pub label: Option<Seq<u8>>,
}

/// The view of an optional buffer.
pub open spec fn buffer_view(b: Option<Vec<u8>>) -> Option<Seq<u8>> {
    match b {
        Some(v) => Some(v@),
        None => None,
    }
}

impl View for MdRecord {
    type V = RecordView;

    open spec fn view(&self) -> RecordView {
        RecordView {
            version: self.version,
            unit: self.unit,
            kind: self.kind,
            file: buffer_view(self.file),
            mediasize: self.mediasize,
            sectorsize: self.sectorsize,
            options: self.options,
            base: self.base,
            fwheads: self.fwheads,
            fwsectors: self.fwsectors,
            label: buffer_view(self.label),
        }
    }
}

/// The record that names `unit` and sets nothing else.
pub open spec fn blank_view(unit: u32) -> RecordView {
    RecordView {
        version: MDIOVERSION,
        unit,
        kind: 0,
        file: None,
        mediasize: 0,
        sectorsize: 0,
        options: 0,
        base: 0,
        fwheads: 0,
        fwsectors: 0,
        label: None,
    }
}

impl MdRecord {
    /// The record that names `unit` and sets nothing else.
    pub fn blank(unit: u32) -> (r: MdRecord)
        ensures
            r@ == blank_view(unit),
    {
        MdRecord {
            version: MDIOVERSION,
            unit,
            kind: 0,
            file: None,
            mediasize: 0,
            sectorsize: 0,
            options: 0,
            base: 0,
            fwheads: 0,
            fwsectors: 0,
            label: None,
        }
    }
}

} // verus!
