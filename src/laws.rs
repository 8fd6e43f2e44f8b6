//! Properties that relate several operations of the library.
use vstd::prelude::*;
use vstd::utf8::encode_utf8;

use crate::buffer::{fits, is_text_of, lemma_padded_text, nul_free};
use crate::builder::{BackingKind, BuilderView};
use crate::device::{detach_view, resize_view};
use crate::options::{lemma_pack, spec_mask, MdOption};
use crate::record::{MdError, RecordView};

verus! {

/// A label whose bytes and a terminator fit the record's buffer, and which
/// holds no NUL byte, is read back unchanged from the attach record of any
/// configuration whose backing path fits; a label that does not fit makes
/// finalization fail rather than be cut short.
pub proof fn label_round_trip(
    b: BuilderView,
    label: Seq<char>,
    backing_len: u64,
    capacity: nat,
    r: Result<RecordView, MdError>,
)
    requires
        (BuilderView { label: Some(label), ..b }).finalized(r, backing_len, capacity),
    ensures
        b.file_fits(capacity) && fits(encode_utf8(label), capacity) && nul_free(encode_utf8(label))
            ==> r is Ok && r->Ok_0.label is Some && is_text_of(encode_utf8(label), r->Ok_0.label->0),
        !fits(encode_utf8(label), capacity) ==> r is Err,
{
    if fits(encode_utf8(label), capacity) && nul_free(encode_utf8(label)) {
        lemma_padded_text(encode_utf8(label), capacity);
    }
}

/// A file-backed configuration with no size of its own asks for a device as
/// long as the backing file; with a size of its own, for that size.
pub proof fn file_size_default(b: BuilderView, backing_len: u64, capacity: nat, r: Result<RecordView, MdError>)
    requires
        b.kind == BackingKind::Vnode,
        backing_len <= i64::MAX,
        b.finalized(r, backing_len, capacity),
        r is Ok,
    ensures
        b.mediasize == 0 ==> r->Ok_0.mediasize as int == backing_len as int,
        b.mediasize != 0 ==> r->Ok_0.mediasize == b.mediasize,
{
}

/// A configuration that asks for unit `unit` attaches with that unit and with
/// automatic assignment switched off in the record's option mask.
pub proof fn explicit_unit(b: BuilderView, unit: u32, backing_len: u64, capacity: nat, r: Result<RecordView, MdError>)
    requires
        (BuilderView { unit, options: b.options.remove(MdOption::AutoUnit), ..b }).finalized(
            r,
            backing_len,
            capacity,
        ),
        r is Ok,
    ensures
        r->Ok_0.unit == unit,
        r->Ok_0.options & spec_mask(MdOption::AutoUnit) == 0,
{
    lemma_pack(b.options.remove(MdOption::AutoUnit));
}

/// The detach and resize records of a unit name that unit and carry the
/// force bit exactly when force is asked for; a resize record carries the
/// new size exactly. Automatic cleanup uses the forced detach record.
pub proof fn force_bit(unit: u32, newsize: i64, force: bool)
    ensures
        detach_view(unit, force).unit == unit,
        (detach_view(unit, force).options & spec_mask(MdOption::Force) != 0) == force,
        resize_view(unit, newsize, force).unit == unit,
        (resize_view(unit, newsize, force).options & spec_mask(MdOption::Force) != 0) == force,
        resize_view(unit, newsize, force).mediasize == newsize,
{
    lemma_pack(set![MdOption::Force]);
    assert(set![MdOption::Force].contains(MdOption::Force));
    assert(0u32 & (1u32 << 5u32) == 0) by (bit_vector);
}

} // verus!
