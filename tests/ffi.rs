#![allow(non_camel_case_types)]

pub type off_t = i64;

#[derive(Copy, Clone)]
pub union diocgattr_arg__bindgen_ty_1 {
    pub str_: [i8; 256usize],
    pub off: off_t,
    pub i: i32,
    pub u16_: u16,
}

#[test]
fn bindgen_test_layout_diocgattr_arg__bindgen_ty_1() {
    assert_eq!(
        std::mem::size_of::<diocgattr_arg__bindgen_ty_1>(),
        256usize,
        "Size of: diocgattr_arg__bindgen_ty_1"
    );
    assert_eq!(
        std::mem::align_of::<diocgattr_arg__bindgen_ty_1>(),
        8usize,
        "Alignment of diocgattr_arg__bindgen_ty_1"
    );
    // A field as large as the union can only start where the union starts.
    assert_eq!(
        std::mem::size_of::<diocgattr_arg__bindgen_ty_1>() - std::mem::size_of::<[i8; 256usize]>(),
        0usize,
        "Offset of field: diocgattr_arg__bindgen_ty_1::str_"
    );
    let v = diocgattr_arg__bindgen_ty_1 { off: 0 };
    let w = diocgattr_arg__bindgen_ty_1 { i: 0 };
    let x = diocgattr_arg__bindgen_ty_1 { u16_: 0 };
    assert_eq!(std::mem::size_of_val(&v), 256usize);
    assert_eq!(std::mem::size_of_val(&w), 256usize);
    assert_eq!(std::mem::size_of_val(&x), 256usize);
}
