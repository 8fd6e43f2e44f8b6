use mdconfig::buffer::encode_fixed;
use mdconfig::{BackingKind, Builder, MdError, MdOption, MdRecord, Options};

const CAP: usize = 32;

fn record(b: &Builder) -> MdRecord {
    b.attach_record_with(0, CAP).unwrap()
}

fn padded(text: &[u8], cap: usize) -> Vec<u8> {
    let mut v = text.to_vec();
    v.resize(cap, 0);
    v
}

#[test]
fn malloc() {
    let r = record(&Builder::malloc(1 << 20));
    assert_eq!(r.version, 0);
    assert_eq!(r.kind, 0);
    assert_eq!(r.mediasize, 1 << 20);
    assert_eq!(r.options, 0x14);
    assert_eq!(r.unit, 0);
    assert!(r.file.is_none());
    assert!(r.label.is_none());
    assert_eq!((r.sectorsize, r.fwheads, r.fwsectors, r.base), (0, 0, 0, 0));
}

#[test]
fn null() {
    let r = record(&Builder::null(1 << 20));
    assert_eq!(r.kind, 4);
    assert_eq!(r.mediasize, 1 << 20);
    assert_eq!(r.options, 0x14);
    assert!(r.file.is_none());
    assert!(r.label.is_none());
}

#[test]
fn swap() {
    let r = record(&Builder::swap(1 << 20));
    assert_eq!(r.kind, 3);
    assert_eq!(r.mediasize, 1 << 20);
    assert_eq!(r.options, 0x15);
    assert!(r.file.is_none());
}

#[test]
fn vnode() {
    let b = Builder::vnode("/tmp/vfat.img");
    assert_eq!(b.kind(), BackingKind::Vnode);
    assert_eq!(b.backing_file(), Some("/tmp/vfat.img"));
    let r = b.attach_record_with(1 << 21, CAP).unwrap();
    assert_eq!(r.kind, 2);
    assert_eq!(r.mediasize, 1 << 21);
    assert_eq!(r.options, 0x15);
    assert_eq!(r.file, Some(padded(b"/tmp/vfat.img", CAP)));
}

#[test]
fn vnode_with_size() {
    let b = Builder::vnode("/tmp/vfat.img").size(1 << 20);
    let r = b.attach_record_with(1 << 21, CAP).unwrap();
    assert_eq!(r.mediasize, 1 << 20);
}

#[test]
fn backing_len_ignored_without_file() {
    let r = Builder::swap(1 << 20).attach_record_with(1 << 21, CAP).unwrap();
    assert_eq!(r.mediasize, 1 << 20);
    assert_eq!(Builder::swap(1 << 20).backing_file(), None);
}

#[test]
fn async_() {
    let b = Builder::vnode("/tmp/f").async_(true);
    assert_eq!(b.attach_record_with(1, CAP).unwrap().options, 0x55);
    assert_eq!(b.async_(false).attach_record_with(1, CAP).unwrap().options, 0x15);
}

#[test]
fn cache() {
    let b = Builder::vnode("/tmp/f").cache(true);
    assert_eq!(b.attach_record_with(1, CAP).unwrap().options, 0x115);
    assert_eq!(b.cache(false).attach_record_with(1, CAP).unwrap().options, 0x15);
}

#[test]
fn compress() {
    assert_eq!(record(&Builder::malloc(1 << 20).compress(true)).options, 0x14);
    assert_eq!(record(&Builder::malloc(1 << 20).compress(false)).options, 0x04);
}

#[test]
fn mustdealloc() {
    let b = Builder::vnode("/tmp/f").mustdealloc(true);
    assert_eq!(b.attach_record_with(1, CAP).unwrap().options, 0x215);
}

#[test]
fn readonly() {
    let b = Builder::vnode("/tmp/f").readonly(true);
    assert_eq!(b.attach_record_with(1, CAP).unwrap().options, 0x1d);
}

#[test]
fn reserve() {
    assert_eq!(record(&Builder::swap(1 << 20).reserve(true)).options, 0x17);
}

#[test]
fn verify() {
    let b = Builder::vnode("/tmp/f").verify(true);
    assert_eq!(b.attach_record_with(1, CAP).unwrap().options, 0x95);
}

#[test]
fn sectorsize() {
    assert_eq!(record(&Builder::swap(1 << 20).sectorsize(2048)).sectorsize, 2048);
}

#[test]
fn sectors_per_track_and_heads() {
    let r = record(&Builder::swap(1 << 30).sectors_per_track(42).heads_per_cylinder(69));
    assert_eq!(r.fwsectors, 42);
    assert_eq!(r.fwheads, 69);
    assert_eq!(r.mediasize, 1 << 30);
}

#[test]
fn only_heads_is_passed_on_as_is() {
    let r = record(&Builder::malloc(1 << 20).heads_per_cylinder(69));
    assert_eq!((r.fwheads, r.fwsectors), (69, 0));
}

#[test]
fn unit_clears_auto_assignment() {
    let r = record(&Builder::null(1 << 20).unit(666));
    assert_eq!(r.unit, 666);
    assert_eq!(r.options, 0x10);
}

#[test]
fn label() {
    let r = record(&Builder::null(1 << 20).label("foo"));
    assert_eq!(r.label, Some(padded(b"foo", CAP)));
}

#[test]
fn label_that_just_fits() {
    let text = "x".repeat(CAP - 1);
    let r = record(&Builder::null(1 << 20).label(&text));
    let buf = r.label.unwrap();
    assert_eq!(buf.len(), CAP);
    assert_eq!(&buf[..CAP - 1], text.as_bytes());
    assert_eq!(buf[CAP - 1], 0);
}

#[test]
fn label_too_long() {
    let text = "x".repeat(CAP);
    let r = Builder::null(1 << 20).label(&text).attach_record_with(0, CAP);
    assert_eq!(r.unwrap_err(), MdError::LabelTooLong);
}

#[test]
fn path_too_long() {
    let path = "/".repeat(CAP);
    let r = Builder::vnode(&path).label(&"x".repeat(CAP)).attach_record_with(1, CAP);
    assert_eq!(r.unwrap_err(), MdError::PathTooLong);
}

#[test]
fn non_ascii_label_is_utf8() {
    let r = record(&Builder::null(1).label("é"));
    assert_eq!(r.label, Some(padded(&[0xc3, 0xa9], CAP)));
}

#[test]
fn platform_capacity() {
    let cap = libc::PATH_MAX as usize;
    let r = Builder::vnode("/tmp/f").label("foo").attach_record(7).unwrap();
    assert_eq!(r.file, Some(padded(b"/tmp/f", cap)));
    assert_eq!(r.label, Some(padded(b"foo", cap)));
    assert_eq!(r.mediasize, 7);
    let long = "x".repeat(cap);
    let e = Builder::null(1).label(&long).attach_record(0).unwrap_err();
    assert_eq!(e, MdError::LabelTooLong);
    let fits = "x".repeat(cap - 1);
    assert!(Builder::null(1).label(&fits).attach_record(0).is_ok());
}

#[test]
fn encode_fixed_pads_and_refuses() {
    assert_eq!(encode_fixed(b"ab", 4), Some(vec![b'a', b'b', 0, 0]));
    assert_eq!(encode_fixed(b"abc", 4), Some(vec![b'a', b'b', b'c', 0]));
    assert_eq!(encode_fixed(b"abcd", 4), None);
    assert_eq!(encode_fixed(b"", 1), Some(vec![0]));
    assert_eq!(encode_fixed(b"", 0), None);
}

#[test]
fn option_set() {
    let mut o = Options::empty();
    assert_eq!(o.bits(), 0);
    o.insert(MdOption::Cache);
    o.insert(MdOption::Force);
    assert!(o.contains(MdOption::Cache));
    assert!(!o.contains(MdOption::Async));
    assert_eq!(o.bits(), 0x120);
    o.remove(MdOption::Cache);
    o.remove(MdOption::Cache);
    assert_eq!(o.bits(), 0x20);
    o.set(MdOption::MustDealloc, true);
    assert_eq!(o.bits(), 0x220);
    o.set(MdOption::Force, false);
    assert_eq!(o.bits(), 0x200);
}

#[test]
fn option_masks() {
    let all = [
        (MdOption::Cluster, 0x001),
        (MdOption::Reserve, 0x002),
        (MdOption::AutoUnit, 0x004),
        (MdOption::ReadOnly, 0x008),
        (MdOption::Compress, 0x010),
        (MdOption::Force, 0x020),
        (MdOption::Async, 0x040),
        (MdOption::Verify, 0x080),
        (MdOption::Cache, 0x100),
        (MdOption::MustDealloc, 0x200),
    ];
    for (o, m) in all {
        assert_eq!(o.mask(), m);
    }
}
