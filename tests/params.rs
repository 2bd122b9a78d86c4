use hostfxr_sys::hostfxr_initialize_parameters;
use hostfxr_sys::layout::{c_layout, FieldLayout};
use hostfxr_sys::params::{NULL_ADDRESS, UNMANAGED_CALLERS_ONLY_METHOD};

#[test]
fn parameters_layout_is_three_words() {
    let w = std::mem::size_of::<usize>();
    let l = hostfxr_initialize_parameters::layout();
    assert_eq!(l.size, 3 * w);
    assert_eq!(l.align, std::mem::align_of::<usize>());
    assert_eq!(l.offsets, vec![0, w, 2 * w]);
    assert_eq!(hostfxr_initialize_parameters::native_size(), 3 * w);
}

#[test]
fn with_host_path_leaves_root_null() {
    let p = hostfxr_initialize_parameters::with_host_path(0xdead_0000);
    assert_eq!(p.size, 3 * std::mem::size_of::<usize>());
    assert_eq!(p.host_path, 0xdead_0000);
    assert_eq!(p.dotnet_root, NULL_ADDRESS);
}

#[test]
fn with_dotnet_root_leaves_host_path_null() {
    let p = hostfxr_initialize_parameters::with_dotnet_root(0xbeef_0000);
    assert_eq!(p.size, 3 * std::mem::size_of::<usize>());
    assert_eq!(p.host_path, NULL_ADDRESS);
    assert_eq!(p.dotnet_root, 0xbeef_0000);
}

#[test]
fn unmanaged_callers_only_sentinel() {
    assert_eq!(UNMANAGED_CALLERS_ONLY_METHOD, usize::MAX);
    assert_ne!(UNMANAGED_CALLERS_ONLY_METHOD, NULL_ADDRESS);
}

#[test]
fn c_layout_pads_between_fields() {
    let fields = vec![
        FieldLayout { size: 1, align: 1 },
        FieldLayout { size: 4, align: 4 },
        FieldLayout { size: 2, align: 2 },
    ];
    let l = c_layout(&fields).unwrap();
    assert_eq!(l.offsets, vec![0, 4, 8]);
    assert_eq!(l.size, 12);
    assert_eq!(l.align, 4);
}

#[test]
fn c_layout_of_nothing() {
    let l = c_layout(&vec![]).unwrap();
    assert_eq!(l.size, 0);
    assert_eq!(l.align, 1);
    assert!(l.offsets.is_empty());
}

#[test]
fn c_layout_trailing_padding() {
    let fields = vec![FieldLayout { size: 8, align: 8 }, FieldLayout { size: 1, align: 1 }];
    let l = c_layout(&fields).unwrap();
    assert_eq!(l.offsets, vec![0, 8]);
    assert_eq!(l.size, 16);
}

#[test]
fn c_layout_overflow() {
    let fields = vec![FieldLayout { size: usize::MAX, align: 1 }, FieldLayout { size: 1, align: 1 }];
    assert!(c_layout(&fields).is_none());
    let fields = vec![FieldLayout { size: usize::MAX - 2, align: 1 }, FieldLayout { size: 1, align: 4 }];
    assert!(c_layout(&fields).is_none());
    let fields = vec![FieldLayout { size: usize::MAX, align: 1 }];
    assert_eq!(c_layout(&fields).unwrap().size, usize::MAX);
}

#[test]
fn c_layout_refuses_zero_alignment() {
    let fields = vec![FieldLayout { size: 4, align: 4 }, FieldLayout { size: 1, align: 0 }];
    assert!(c_layout(&fields).is_none());
}
