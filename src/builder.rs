//! The configuration of a device that is yet to be attached.
use vstd::prelude::*;
use vstd::utf8::encode_utf8;

use crate::buffer::{encode_fixed, fits, padded};
use crate::options::{pack, MdOption, Options};
use crate::platform::path_max;
use crate::record::{MdError, MdRecord, RecordView, MDIOVERSION, MD_MALLOC, MD_NULL, MD_SWAP, MD_VNODE};

verus! {

/// What stores a device's data.
#[derive(Clone, Copy, Debug, PartialEq, Eq, Structural)]
pub enum BackingKind {
    /// Anonymous memory.
    Malloc,
    /// Nothing: writes are dropped and reads give zeros.
    Null,
    /// A regular file.
    Vnode,
    /// Memory that may be pushed out to swap.
    Swap,
}

/// The record's type code of a backing kind.
pub open spec fn kind_code(k: BackingKind) -> u32 {
    match k {
        BackingKind::Malloc => MD_MALLOC,
        BackingKind::Null => MD_NULL,
        BackingKind::Vnode => MD_VNODE,
        BackingKind::Swap => MD_SWAP,
    }
}

/// The mathematical value of a [`Builder`].
pub struct BuilderView {
    pub kind: BackingKind,
    pub file: Option<Seq<char>>,
    pub label: Option<Seq<char>>,
    pub unit: u32,
    pub mediasize: i64,
    pub sectorsize: u32,
    pub fwheads: i32,
    pub fwsectors: i32,
    pub options: Set<MdOption>,
}

/// The options that every configuration starts from.
pub open spec fn base_options() -> Set<MdOption> {
    set![MdOption::AutoUnit, MdOption::Compress]
}

/// The options that a backing kind starts from.
pub open spec fn default_options(kind: BackingKind) -> Set<MdOption> {
    match kind {
        BackingKind::Vnode | BackingKind::Swap => base_options().insert(MdOption::Cluster),
        _ => base_options(),
    }
}

/// A fresh configuration of the given kind, size and backing file.
pub open spec fn fresh_view(kind: BackingKind, mediasize: i64, file: Option<Seq<char>>) -> BuilderView {
    BuilderView {
        kind,
        file,
        label: None,
        unit: 0,
        mediasize,
        sectorsize: 0,
        fwheads: 0,
        fwsectors: 0,
        options: default_options(kind),
    }
}

impl BuilderView {
    /// This configuration with `o` switched on or off.
    pub open spec fn with_option(self, o: MdOption, on: bool) -> BuilderView {
        BuilderView {
            options: if on { self.options.insert(o) } else { self.options.remove(o) },
            ..self
        }
    }

    /// The bytes of the backing path, if any.
    pub open spec fn file_bytes(self) -> Option<Seq<u8>> {
        match self.file {
            Some(p) => Some(encode_utf8(p)),
            None => None,
        }
    }

    /// The bytes of the label, if any.
    pub open spec fn label_bytes(self) -> Option<Seq<u8>> {
        match self.label {
            Some(l) => Some(encode_utf8(l)),
            None => None,
        }
    }

    /// The backing path, if any, fits a buffer of `capacity` bytes.
    pub open spec fn file_fits(self, capacity: nat) -> bool {
        self.file_bytes() is Some ==> fits(self.file_bytes()->0, capacity)
    }

    /// The label, if any, fits a buffer of `capacity` bytes.
    pub open spec fn label_fits(self, capacity: nat) -> bool {
        self.label_bytes() is Some ==> fits(self.label_bytes()->0, capacity)
    }

    /// The device size that the attach record asks for: for a file-backed
    /// device with no size of its own, the file's length.
    pub open spec fn attach_size(self, backing_len: u64) -> i64 {
        if self.kind == BackingKind::Vnode && self.mediasize == 0 {
            backing_len as i64
        } else {
            self.mediasize
        }
    }

    /// The attach record of this configuration, with buffers of `capacity`
    /// bytes and a backing file of `backing_len` bytes.
    pub open spec fn attach_view(self, backing_len: u64, capacity: nat) -> RecordView {
        RecordView {
            version: MDIOVERSION,
            unit: self.unit,
            kind: kind_code(self.kind),
            file: match self.file_bytes() {
                Some(b) => Some(padded(b, capacity)),
                None => None,
            },
            mediasize: self.attach_size(backing_len),
            sectorsize: self.sectorsize,
            options: pack(self.options),
            base: 0,
            fwheads: self.fwheads,
            fwsectors: self.fwsectors,
            label: match self.label_bytes() {
                Some(b) => Some(padded(b, capacity)),
                None => None,
            },
        }
    }

    /// The outcome of finalizing this configuration with buffers of
    /// `capacity` bytes: the path is checked first, then the label.
    pub open spec fn finalized(self, r: Result<RecordView, MdError>, backing_len: u64, capacity: nat) -> bool {
        if !self.file_fits(capacity) {
            r == Err::<RecordView, MdError>(MdError::PathTooLong)
        } else if !self.label_fits(capacity) {
            r == Err::<RecordView, MdError>(MdError::LabelTooLong)
        } else {
            r == Ok::<RecordView, MdError>(self.attach_view(backing_len, capacity))
        }
    }
}

/// The view of a finalization's outcome.
pub open spec fn result_view(r: Result<MdRecord, MdError>) -> Result<RecordView, MdError> {
    match r {
        Ok(rec) => Ok(rec@),
        Err(e) => Err(e),
    }
}

/// Gathers the specification of a memory disk; see the constructors for each
/// backing kind, and [`Builder::attach_record`] to finalize it.
#[derive(Debug)]
pub struct Builder {
    kind: BackingKind,
    file: Option<String>,
    label: Option<String>,
    unit: u32,
    mediasize: i64,
    sectorsize: u32,
    fwheads: i32,
    fwsectors: i32,
    options: Options,
}

/// The view of an optional string.
pub open spec fn text_view(s: Option<String>) -> Option<Seq<char>> {
    match s {
        Some(t) => Some(t@),
        None => None,
    }
}

impl View for Builder {
    type V = BuilderView;

    closed spec fn view(&self) -> BuilderView {
        BuilderView {
            kind: self.kind,
            file: text_view(self.file),
            label: text_view(self.label),
            unit: self.unit,
            mediasize: self.mediasize,
            sectorsize: self.sectorsize,
            fwheads: self.fwheads,
            fwsectors: self.fwsectors,
            options: self.options@,
        }
    }
}

impl Builder {
    /// Well-formedness: the option set is well formed, and a backing file is
    /// named exactly for file-backed devices.
    pub closed spec fn wf(&self) -> bool {
        &&& self.options.wf()
        &&& (self.kind == BackingKind::Vnode <==> self.file is Some)
    }

    fn new(kind: BackingKind, mediasize: i64, file: Option<String>) -> (r: Builder)
        requires
            kind == BackingKind::Vnode <==> file is Some,
        ensures
            r.wf(),
            r@ == fresh_view(kind, mediasize, text_view(file)),
    {
        let mut options = Options::empty();
        options.insert(MdOption::AutoUnit);
        options.insert(MdOption::Compress);
        match kind {
            BackingKind::Vnode | BackingKind::Swap => options.insert(MdOption::Cluster),
            _ => {},
        }
        let r = Builder {
            kind,
            file,
            label: None,
            unit: 0,
            mediasize,
            sectorsize: 0,
            fwheads: 0,
            fwsectors: 0,
            options,
        };
        assert(r@.options =~= default_options(kind));
        r
    }

    /// A device backed by anonymous memory, of `size` bytes.
    pub fn malloc(size: u64) -> (r: Builder)
        ensures
            r.wf(),
            r@ == fresh_view(BackingKind::Malloc, size as i64, None),
    {
        Builder::new(BackingKind::Malloc, size as i64, None)
    }

    /// A device of `size` bytes that drops writes and reads as zeros.
    pub fn null(size: u64) -> (r: Builder)
        ensures
            r.wf(),
            r@ == fresh_view(BackingKind::Null, size as i64, None),
    {
        Builder::new(BackingKind::Null, size as i64, None)
    }

    /// A device backed by the file at `path`. Its size is the file's unless
    /// [`Builder::size`] sets one.
    pub fn vnode(path: &str) -> (r: Builder)
        ensures
            r.wf(),
            r@ == fresh_view(BackingKind::Vnode, 0, Some(path@)),
    {
        Builder::new(BackingKind::Vnode, 0, Some(path.to_owned()))
    }

    /// A device of `size` bytes backed by memory that may be swapped out.
    pub fn swap(size: u64) -> (r: Builder)
        ensures
            r.wf(),
            r@ == fresh_view(BackingKind::Swap, size as i64, None),
    {
        Builder::new(BackingKind::Swap, size as i64, None)
    }

    fn with_option(self, o: MdOption, on: bool) -> (r: Builder)
        requires
            self.wf(),
        ensures
            r.wf(),
            r@ == self@.with_option(o, on),
    {
        let mut b = self;
        b.options.set(o, on);
        b
    }

    /// For file-backed devices: write asynchronously, for speed, at the risk
    /// of a deadlock of the kernel.
    pub fn async_(self, async_: bool) -> (r: Builder)
        requires
            self.wf(),
        ensures
            r.wf(),
            r@ == self@.with_option(MdOption::Async, async_),
    {
        self.with_option(MdOption::Async, async_)
    }

    /// For file-backed devices: keep the file's data in the system caches.
    pub fn cache(self, cache: bool) -> (r: Builder)
        requires
            self.wf(),
        ensures
            r.wf(),
            r@ == self@.with_option(MdOption::Cache, cache),
    {
        self.with_option(MdOption::Cache, cache)
    }

    /// Compress the contents to save memory.
    pub fn compress(self, compress: bool) -> (r: Builder)
        requires
            self.wf(),
        ensures
            r.wf(),
            r@ == self@.with_option(MdOption::Compress, compress),
    {
        self.with_option(MdOption::Compress, compress)
    }

    /// For file-backed devices: fail deletes that the file system cannot
    /// deallocate, rather than fill them with zeros.
    pub fn mustdealloc(self, mustdealloc: bool) -> (r: Builder)
        requires
            self.wf(),
        ensures
            r.wf(),
            r@ == self@.with_option(MdOption::MustDealloc, mustdealloc),
    {
        self.with_option(MdOption::MustDealloc, mustdealloc)
    }

    /// Reserve all storage at once rather than as it is needed.
    pub fn reserve(self, reserve: bool) -> (r: Builder)
        requires
            self.wf(),
        ensures
            r.wf(),
            r@ == self@.with_option(MdOption::Reserve, reserve),
    {
        self.with_option(MdOption::Reserve, reserve)
    }

    /// Refuse writes.
    pub fn readonly(self, readonly: bool) -> (r: Builder)
        requires
            self.wf(),
        ensures
            r.wf(),
            r@ == self@.with_option(MdOption::ReadOnly, readonly),
    {
        self.with_option(MdOption::ReadOnly, readonly)
    }

    /// For file-backed devices: ask for verification of the backing file.
    pub fn verify(self, verify: bool) -> (r: Builder)
        requires
            self.wf(),
        ensures
            r.wf(),
            r@ == self@.with_option(MdOption::Verify, verify),
    {
        self.with_option(MdOption::Verify, verify)
    }

    /// Heads per cylinder of a synthetic geometry. The driver heeds it only
    /// together with [`Builder::sectors_per_track`].
    pub fn heads_per_cylinder(self, heads: i32) -> (r: Builder)
        requires
            self.wf(),
        ensures
            r.wf(),
            r@ == (BuilderView { fwheads: heads, ..self@ }),
    {
        let mut b = self;
        b.fwheads = heads;
        b
    }

    /// Sectors per track of a synthetic geometry. The driver heeds it only
    /// together with [`Builder::heads_per_cylinder`].
    pub fn sectors_per_track(self, sectors: i32) -> (r: Builder)
        requires
            self.wf(),
        ensures
            r.wf(),
            r@ == (BuilderView { fwsectors: sectors, ..self@ }),
    {
        let mut b = self;
        b.fwsectors = sectors;
        b
    }

    /// Sector size in bytes; 0 leaves it to the driver.
    pub fn sectorsize(self, sectorsize: u32) -> (r: Builder)
        requires
            self.wf(),
        ensures
            r.wf(),
            r@ == (BuilderView { sectorsize, ..self@ }),
    {
        let mut b = self;
        b.sectorsize = sectorsize;
        b
    }

    /// The device's size in bytes; for a file-backed device, a nonzero size
    /// replaces the file's.
    pub fn size(self, size: i64) -> (r: Builder)
        requires
            self.wf(),
        ensures
            r.wf(),
            r@ == (BuilderView { mediasize: size, ..self@ }),
    {
        let mut b = self;
        b.mediasize = size;
        b
    }

    /// A free-text label, reported with the device.
    pub fn label(self, label: &str) -> (r: Builder)
        requires
            self.wf(),
        ensures
            r.wf(),
            r@ == (BuilderView { label: Some(label@), ..self@ }),
    {
        let mut b = self;
        b.label = Some(label.to_owned());
        b
    }

    /// Ask for unit `unit` rather than one that the driver picks.
    pub fn unit(self, unit: u32) -> (r: Builder)
        requires
            self.wf(),
        ensures
            r.wf(),
            r@ == (BuilderView { unit, options: self@.options.remove(MdOption::AutoUnit), ..self@ }),
    {
        let mut b = self;
        b.unit = unit;
        b.options.remove(MdOption::AutoUnit);
        b
    }

    /// The backing kind.
    pub fn kind(&self) -> (r: BackingKind)
        ensures
            r == self@.kind,
    {
        self.kind
    }

    /// The path of the backing file, for a file-backed device.
    pub fn backing_file(&self) -> (r: Option<&str>)
        requires
            self.wf(),
        ensures
            r is Some <==> self@.kind == BackingKind::Vnode,
            r is Some ==> r->0@ == self@.file->0,
    {
        match &self.file {
            Some(p) => Some(p.as_str()),
            None => None,
        }
    }

    /// The attach record of this configuration, with buffers of `capacity`
    /// bytes; `backing_len` is the backing file's length, and is read only
    /// for a file-backed device with no size of its own.
    pub fn attach_record_with(&self, backing_len: u64, capacity: usize) -> (r: Result<MdRecord, MdError>)
        requires
            self.wf(),
        ensures
            self@.finalized(result_view(r), backing_len, capacity as nat),
    {
        let file = match &self.file {
            Some(p) => match encode_fixed(p.as_str().as_bytes(), capacity) {
                Some(b) => Some(b),
                None => return Err(MdError::PathTooLong),
            },
            None => None,
        };
        let label = match &self.label {
            Some(l) => match encode_fixed(l.as_str().as_bytes(), capacity) {
                Some(b) => Some(b),
                None => return Err(MdError::LabelTooLong),
            },
            None => None,
        };
        let mediasize = if self.file.is_some() && self.mediasize == 0 {
            backing_len as i64
        } else {
            self.mediasize
        };
        let kind: u32 = match self.kind {
            BackingKind::Malloc => MD_MALLOC,
            BackingKind::Null => MD_NULL,
            BackingKind::Vnode => MD_VNODE,
            BackingKind::Swap => MD_SWAP,
        };
        let rec = MdRecord {
            version: MDIOVERSION,
            unit: self.unit,
            kind,
            file,
            mediasize,
            sectorsize: self.sectorsize,
            options: self.options.bits(),
            base: 0,
            fwheads: self.fwheads,
            fwsectors: self.fwsectors,
            label,
        };
        Ok(rec)
    }

    /// The attach record of this configuration, with buffers as long as the
    /// platform's longest path; see [`Builder::attach_record_with`].
    pub fn attach_record(&self, backing_len: u64) -> (r: Result<MdRecord, MdError>)
        requires
            self.wf(),
        ensures
            exists|capacity: nat| capacity > 0 && self@.finalized(result_view(r), backing_len, capacity),
    {
        let capacity = path_max();
        let r = self.attach_record_with(backing_len, capacity);
        assert(self@.finalized(result_view(r), backing_len, capacity as nat));
        r
    }
}

} // verus!
