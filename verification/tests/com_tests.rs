use dxvk_bridge_nostd::com::{
    create_com_object, create_com_object_with_data, default_iunknown_vtbl, get_impl_data, guid_compare,
    guid_eq, guid_to_string, iid_iunknown, init, live_object_count, ComHeap, ComPtr, Guid, IUnknownVtbl,
    ImplData, D3DERR_INVALIDCALL, DXGI_ERROR_DEVICE_REMOVED, DXGI_ERROR_NOT_FOUND, E_FAIL, E_INVALIDARG,
    E_NOINTERFACE, E_NOTIMPL, E_OUTOFMEMORY, E_POINTER, S_FALSE, S_OK,
};
use dxvk_bridge_nostd::d3d9::{iid_idirect3d9, D3d9Data};
use std::cmp::Ordering;

fn guid(d1: u32, d2: u16, d3: u16, d4: [u8; 8]) -> Guid {
    Guid { data1: d1, data2: d2, data3: d3, data4: d4 }
}

#[test]
fn hresult_values_match_their_hex_forms() {
    assert_eq!(S_OK, 0);
    assert_eq!(S_FALSE, 1);
    assert_eq!(E_NOINTERFACE, 0x80004002_u32 as i32);
    assert_eq!(E_POINTER, 0x80004003_u32 as i32);
    assert_eq!(E_OUTOFMEMORY, 0x8007000E_u32 as i32);
    assert_eq!(E_INVALIDARG, 0x80070057_u32 as i32);
    assert_eq!(E_FAIL, 0x80004005_u32 as i32);
    assert_eq!(E_NOTIMPL, 0x80004001_u32 as i32);
    assert_eq!(DXGI_ERROR_NOT_FOUND, 0x887A0002_u32 as i32);
    assert_eq!(DXGI_ERROR_DEVICE_REMOVED, 0x887A0005_u32 as i32);
    assert_eq!(D3DERR_INVALIDCALL, 0x8876086C_u32 as i32);
}

#[test]
fn guid_eq_compares_every_field() {
    let a = guid(1, 2, 3, [4, 5, 6, 7, 8, 9, 10, 11]);
    assert!(guid_eq(&a, &a));
    assert!(!guid_eq(&a, &guid(0, 2, 3, [4, 5, 6, 7, 8, 9, 10, 11])));
    assert!(!guid_eq(&a, &guid(1, 0, 3, [4, 5, 6, 7, 8, 9, 10, 11])));
    assert!(!guid_eq(&a, &guid(1, 2, 0, [4, 5, 6, 7, 8, 9, 10, 11])));
    assert!(!guid_eq(&a, &guid(1, 2, 3, [4, 5, 6, 7, 8, 9, 10, 0])));
    assert!(a == guid(1, 2, 3, [4, 5, 6, 7, 8, 9, 10, 11]));
    assert!(a != Guid::zero());
}

#[test]
fn guid_to_string_of_iunknown() {
    assert_eq!(guid_to_string(&iid_iunknown()), "{00000000-0000-0000-C000-000000000046}");
}

#[test]
fn guid_to_string_upper_case_and_padded() {
    assert_eq!(guid_to_string(&iid_idirect3d9()), "{81BDCBCA-64D4-426D-AE8D-AD0147F4275C}");
    let g = guid(0xA, 0xB, 0xC, [1, 2, 3, 4, 5, 6, 7, 0xFF]);
    assert_eq!(guid_to_string(&g), "{0000000A-000B-000C-0102-0304050607FF}");
    assert_eq!(guid_to_string(&g).len(), 38);
}

#[test]
fn guid_to_string_distinguishes_guids() {
    let a = guid(1, 0, 0, [0; 8]);
    let b = guid(0x10, 0, 0, [0; 8]);
    assert_ne!(guid_to_string(&a), guid_to_string(&b));
}

#[test]
fn guid_order_is_lexicographic() {
    let a = guid(1, 2, 3, [0, 0, 0, 0, 0, 0, 0, 1]);
    let b = guid(1, 2, 3, [0, 0, 0, 0, 0, 0, 0, 2]);
    let c = guid(2, 0, 0, [0; 8]);
    assert_eq!(guid_compare(&a, &b), Ordering::Less);
    assert_eq!(guid_compare(&b, &a), Ordering::Greater);
    assert_eq!(guid_compare(&a, &a), Ordering::Equal);
    assert_eq!(guid_compare(&b, &c), Ordering::Less);
    assert_eq!(a.partial_cmp(&b), Some(Ordering::Less));
    assert_eq!(a.cmp(&b), Ordering::Less);
    assert!(guid(1, 3, 0, [0; 8]) > guid(1, 2, 9, [9; 8]));
}

#[test]
fn new_heap_has_no_objects_and_counter_zero() {
    let heap = ComHeap::new();
    assert_eq!(live_object_count(&heap), 0);
    assert!(!heap.is_live(ComPtr::null()));
    assert!(!heap.is_live(ComPtr { addr: 1 }));
}

#[test]
fn init_counts_live_objects() {
    let mut heap = ComHeap::new();
    init(&mut heap);
    assert_eq!(live_object_count(&heap), 0);
    let p = create_com_object(&mut heap, 7, default_iunknown_vtbl());
    init(&mut heap);
    assert_eq!(live_object_count(&heap), 1);
    assert!(heap.is_live(p));
}

#[test]
fn library_init_keeps_objects() {
    let mut heap = ComHeap::new();
    let p = create_com_object(&mut heap, 7, default_iunknown_vtbl());
    dxvk_bridge_nostd::init(&mut heap);
    assert_eq!(live_object_count(&heap), 1);
    assert_eq!(heap.ref_count(p), 1);
}

#[test]
fn live_object_count_is_created_minus_destroyed() {
    let mut heap = ComHeap::new();
    dxvk_bridge_nostd::init(&mut heap);
    let a = create_com_object(&mut heap, 1, default_iunknown_vtbl());
    let b = create_com_object_with_data(&mut heap, 10, default_iunknown_vtbl(),
        ImplData::D3d9(D3d9Data { sdk_version: 32, adapter_count: 1 }));
    let c = create_com_object(&mut heap, 3, default_iunknown_vtbl());
    assert_eq!(live_object_count(&heap), 3);
    heap.add_ref(b);
    assert_eq!(heap.release(b), 1);
    assert_eq!(live_object_count(&heap), 3);
    assert_eq!(heap.release(b), 0);
    assert_eq!(heap.release(a), 0);
    assert_eq!(live_object_count(&heap), 1);
    assert!(heap.is_live(c));
    assert_eq!(heap.release(c), 0);
    assert_eq!(live_object_count(&heap), 0);
}

#[test]
fn api_objects_are_counted() {
    let mut heap = ComHeap::new();
    let _d3d9 = dxvk_bridge_nostd::d3d9::direct3d_create9(&mut heap, 32);
    let mut f = ComPtr::null();
    dxvk_bridge_nostd::dxgi::create_dxgi_factory(&mut heap, None, Some(&mut f));
    assert_eq!(live_object_count(&heap), 3);
    heap.release(f);
    assert_eq!(live_object_count(&heap), 2);
}

#[test]
fn created_objects_get_fresh_addresses_and_one_reference() {
    let mut heap = ComHeap::new();
    let a = create_com_object(&mut heap, 5, default_iunknown_vtbl());
    let b = create_com_object(&mut heap, 6, default_iunknown_vtbl());
    assert_eq!(a.addr, 1);
    assert_eq!(b.addr, 2);
    assert_eq!(heap.ref_count(a), 1);
    assert_eq!(heap.type_id(b), Some(6));
    assert!(get_impl_data(&heap, a).is_none());
}

#[test]
fn create_with_data_keeps_the_data() {
    let mut heap = ComHeap::new();
    let p = create_com_object_with_data(&mut heap, 10, default_iunknown_vtbl(),
        ImplData::D3d9(D3d9Data { sdk_version: 32, adapter_count: 3 }));
    match get_impl_data(&heap, p) {
        Some(ImplData::D3d9(d)) => {
            assert_eq!(d.sdk_version, 32);
            assert_eq!(d.adapter_count, 3);
        }
        _ => panic!("no data"),
    }
    assert!(get_impl_data(&heap, ComPtr::null()).is_none());
}

#[test]
fn add_ref_then_release_restores_count() {
    let mut heap = ComHeap::new();
    let p = create_com_object(&mut heap, 0, default_iunknown_vtbl());
    assert_eq!(heap.add_ref(p), 2);
    assert_eq!(heap.add_ref(p), 3);
    assert_eq!(heap.release(p), 2);
    assert_eq!(heap.release(p), 1);
    assert_eq!(heap.ref_count(p), 1);
    assert!(heap.is_live(p));
}

#[test]
fn release_of_last_reference_frees_for_good() {
    let mut heap = ComHeap::new();
    let p = create_com_object(&mut heap, 0, default_iunknown_vtbl());
    assert_eq!(heap.release(p), 0);
    assert!(!heap.is_live(p));
    assert_eq!(heap.ref_count(p), 0);
    let q = create_com_object(&mut heap, 0, default_iunknown_vtbl());
    assert_ne!(q, p);
    assert!(!heap.is_live(p));
}

#[test]
fn add_ref_and_release_of_null_return_zero() {
    let mut heap = ComHeap::new();
    assert_eq!(heap.add_ref(ComPtr::null()), 0);
    assert_eq!(heap.release(ComPtr::null()), 0);
}

#[test]
fn query_interface_grants_iunknown() {
    let mut heap = ComHeap::new();
    let p = create_com_object(&mut heap, 0, default_iunknown_vtbl());
    let mut out = ComPtr { addr: 99 };
    assert_eq!(heap.query_interface(p, Some(&iid_iunknown()), Some(&mut out)), S_OK);
    assert_eq!(out, p);
    assert_eq!(heap.ref_count(p), 2);
}

#[test]
fn query_interface_of_other_interface_fails_with_null_out() {
    let mut heap = ComHeap::new();
    let p = create_com_object(&mut heap, 0, default_iunknown_vtbl());
    let mut out = ComPtr { addr: 99 };
    assert_eq!(heap.query_interface(p, Some(&iid_idirect3d9()), Some(&mut out)), E_NOINTERFACE);
    assert!(out.is_null());
    assert_eq!(heap.ref_count(p), 1);
}

#[test]
fn query_interface_grants_the_table_interface() {
    let mut heap = ComHeap::new();
    let vtbl = IUnknownVtbl { interface: Some(iid_idirect3d9()) };
    let p = create_com_object(&mut heap, 0, vtbl);
    let mut out = ComPtr::null();
    assert_eq!(heap.query_interface(p, Some(&iid_idirect3d9()), Some(&mut out)), S_OK);
    assert_eq!(out, p);
    assert_eq!(heap.vtbl(p).unwrap().interface, Some(iid_idirect3d9()));
}

#[test]
fn query_interface_argument_errors() {
    let mut heap = ComHeap::new();
    let p = create_com_object(&mut heap, 0, default_iunknown_vtbl());
    assert_eq!(heap.query_interface(p, Some(&iid_iunknown()), None), E_POINTER);
    let mut out = ComPtr { addr: 99 };
    assert_eq!(heap.query_interface(p, None, Some(&mut out)), E_INVALIDARG);
    assert!(out.is_null());
    assert_eq!(heap.ref_count(p), 1);
}

#[test]
fn query_interface_with_null_this() {
    let mut heap = ComHeap::new();
    let mut out = ComPtr { addr: 99 };
    let vtbl = IUnknownVtbl { interface: Some(iid_idirect3d9()) };
    assert_eq!(heap.query_interface_with(vtbl, ComPtr::null(), Some(&iid_iunknown()), Some(&mut out)), S_OK);
    assert!(out.is_null());
    out = ComPtr { addr: 99 };
    assert_eq!(heap.query_interface_with(vtbl, ComPtr::null(), Some(&iid_idirect3d9()), Some(&mut out)), S_OK);
    assert!(out.is_null());
    out = ComPtr { addr: 99 };
    assert_eq!(heap.query_interface_with(default_iunknown_vtbl(), ComPtr::null(), Some(&iid_idirect3d9()), Some(&mut out)), E_NOINTERFACE);
    assert!(out.is_null());
    assert_eq!(live_object_count(&heap), 0);
}

#[test]
fn query_interface_with_live_this_takes_a_reference() {
    let mut heap = ComHeap::new();
    let p = create_com_object(&mut heap, 0, default_iunknown_vtbl());
    let mut out = ComPtr::null();
    assert_eq!(heap.query_interface_with(default_iunknown_vtbl(), p, Some(&iid_iunknown()), Some(&mut out)), S_OK);
    assert_eq!(out, p);
    assert_eq!(heap.ref_count(p), 2);
}
