//! The handle of an attached device, and the records of the calls made on it.
use vstd::prelude::*;

use crate::options::{pack, MdOption};
use crate::record::{blank_view, MdError, MdRecord, RecordView};

verus! {

/// The decimal digit `d` as a character.
pub open spec fn digit_char(d: nat) -> char {
    ('0' as u8 + d) as char
}

/// The decimal numeral of `n`, without leading zeros.
pub open spec fn decimal(n: nat) -> Seq<char>
    decreases n,
{
    if n < 10 {
        seq![digit_char(n)]
    } else {
        decimal(n / 10).push(digit_char(n % 10))
    }
}

/// The device name of a unit, such as `md0`.
pub open spec fn device_name(unit: u32) -> Seq<char> {
    seq!['m', 'd'] + decimal(unit as nat)
}

/// The path of a unit's device node, such as `/dev/md0`.
pub open spec fn device_path(unit: u32) -> Seq<char> {
    seq!['/', 'd', 'e', 'v', '/'] + device_name(unit)
}

/// The record of the detach call on `unit`, forced or not.
pub open spec fn detach_view(unit: u32, force: bool) -> RecordView {
    RecordView {
        options: if force { pack(set![MdOption::Force]) } else { 0 },
        ..blank_view(unit)
    }
}

/// The record of the resize call on `unit` to `newsize` bytes, forced or not.
pub open spec fn resize_view(unit: u32, newsize: i64, force: bool) -> RecordView {
    RecordView { mediasize: newsize, ..detach_view(unit, force) }
}

fn digit_str(d: u32) -> (r: &'static str)
    requires
        d < 10,
    ensures
        r@ == seq![digit_char(d as nat)],
{
    proof {
        reveal_strlit("0");
        reveal_strlit("1");
        reveal_strlit("2");
        reveal_strlit("3");
        reveal_strlit("4");
        reveal_strlit("5");
        reveal_strlit("6");
        reveal_strlit("7");
        reveal_strlit("8");
        reveal_strlit("9");
    }
    let r = match d {
        0 => "0",
        1 => "1",
        2 => "2",
        3 => "3",
        4 => "4",
        5 => "5",
        6 => "6",
        7 => "7",
        8 => "8",
        _ => "9",
    };
    assert(r@ =~= seq![digit_char(d as nat)]);
    r
}

fn push_decimal(s: &mut String, n: u32)
    ensures
        final(s)@ == old(s)@ + decimal(n as nat),
    decreases n,
{
    if n >= 10 {
        push_decimal(s, n / 10);
    }
    s.append(digit_str(n % 10));
    assert(final(s)@ =~= old(s)@ + decimal(n as nat));
}

/// An attached memory disk, such as `/dev/md0`. The handle stands for the
/// device itself, not for an open file of it.
#[derive(Debug)]
pub struct Md {
    name: String,
    path: String,
    unit: u32,
}

/// The mathematical value of an [`Md`].
pub struct MdView {
    pub name: Seq<char>,
    pub path: Seq<char>,
    pub unit: u32,
}

impl View for Md {
    type V = MdView;

    closed spec fn view(&self) -> MdView {
        MdView { name: self.name@, path: self.path@, unit: self.unit }
    }
}

impl Md {
    /// Name and path are always those of the unit.
    #[verifier::type_invariant]
    spec fn inv(&self) -> bool {
        &&& self.name@ == device_name(self.unit)
        &&& self.path@ == device_path(self.unit)
    }

    /// The handle of the device that an attach call left at `unit`: the
    /// unit of the record that the call wrote back.
    pub fn attached(unit: u32) -> (r: Md)
        ensures
            r@.unit == unit,
            r@.name == device_name(unit),
            r@.path == device_path(unit),
    {
        let mut name = String::from_str("md");
        proof {
            reveal_strlit("md");
            reveal_strlit("/dev/");
        }
        push_decimal(&mut name, unit);
        let mut path = String::from_str("/dev/");
        path.append(name.as_str());
        assert(name@ =~= device_name(unit));
        assert(path@ =~= device_path(unit));
        Md { name, path, unit }
    }

    /// The device's name, such as `md0`.
    pub fn name(&self) -> (r: &str)
        ensures
            r@ == self@.name,
            r@ == device_name(self@.unit),
    {
        proof {
            use_type_invariant(self);
        }
        self.name.as_str()
    }

    /// The path of the device node, such as `/dev/md0`.
    pub fn path(&self) -> (r: &str)
        ensures
            r@ == self@.path,
            r@ == device_path(self@.unit),
    {
        proof {
            use_type_invariant(self);
        }
        self.path.as_str()
    }

    /// The unit number, such as the 0 of `md0`.
    pub fn unit(&self) -> (r: u32)
        ensures
            r == self@.unit,
    {
        self.unit
    }

    /// The record of the call that detaches this device; a forced detach
    /// goes through even while the device is open elsewhere.
    pub fn detach_record(&self, force: bool) -> (r: MdRecord)
        ensures
            r@ == detach_view(self@.unit, force),
    {
        let mut r = MdRecord::blank(self.unit);
        if force {
            r.options = MdOption::Force.mask();
            assert(pack(set![MdOption::Force]) == 0x20u32) by {
                assert(set![MdOption::Force].contains(MdOption::Force));
                assert(0u32 | 0u32 | 0u32 | 0u32 | 0u32 | 0x20u32 | 0u32 | 0u32 | 0u32 | 0u32 == 0x20u32) by (bit_vector);
            }
            assert(1u32 << 5u32 == 0x20u32) by (bit_vector);
        }
        r
    }

    /// The record of the call that resizes this device to `newsize` bytes.
    /// The driver refuses to shrink it unless `force` is set.
    pub fn resize_record(&self, newsize: i64, force: bool) -> (r: MdRecord)
        ensures
            r@ == resize_view(self@.unit, newsize, force),
    {
        let mut r = self.detach_record(force);
        r.mediasize = newsize;
        r
    }

    /// Settles an attempt to detach this device without force, given the
    /// outcome of the call made with [`Md::detach_record`]`(false)`: on
    /// success the handle is used up; on failure it comes back unchanged,
    /// with the error, commonly that the device is busy.
    pub fn try_destroy(self, detached: Result<(), MdError>) -> (r: Result<(), (Md, MdError)>)
        ensures
            detached is Ok <==> r is Ok,
            detached is Err ==> r is Err && (r->Err_0).0@ == self@ && (r->Err_0).1 == detached->Err_0,
    {
        match detached {
            Ok(()) => Ok(()),
            Err(e) => Err((self, e)),
        }
    }
}

/// What becomes of a failed forced detach when a handle is discarded.
#[derive(Clone, Copy, Debug, PartialEq, Eq, Structural)]
pub enum CleanupVerdict {
    /// The device is gone.
    Detached,
    /// The detach failed while the process was already failing: the error is
    /// dropped so as not to hide the first failure.
    Suppressed,
    /// The detach failed: the device would leak, which must not pass quietly.
    Fatal,
}

/// The policy of automatic cleanup, given the outcome of the forced detach
/// and whether the process is already unwinding from a failure.
pub fn cleanup_verdict(detached: &Result<(), MdError>, unwinding: bool) -> (r: CleanupVerdict)
    ensures
        detached is Ok ==> r == CleanupVerdict::Detached,
        detached is Err && unwinding ==> r == CleanupVerdict::Suppressed,
        detached is Err && !unwinding ==> r == CleanupVerdict::Fatal,
{
    match detached {
        Ok(()) => CleanupVerdict::Detached,
        Err(_) => if unwinding {
            CleanupVerdict::Suppressed
        } else {
            CleanupVerdict::Fatal
        },
    }
}

} // verus!
