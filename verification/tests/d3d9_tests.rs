use dxvk_bridge_nostd::com::{get_impl_data, iid_iunknown, ComHeap, ComPtr, ImplData, D3DERR_INVALIDCALL, E_INVALIDARG, S_OK,
    TYPE_D3D9, TYPE_D3D9_DEVICE, TYPE_D3D9_TEXTURE, TYPE_D3D9_VERTEX_BUFFER};
use dxvk_bridge_nostd::d3d9::{
    create_device, create_texture, create_vertex_buffer, direct3d_create9, draw_primitive, get_adapter_count,
    iid_idirect3d9, iid_idirect3ddevice9, present, set_texture, D3d9DeviceData, D3dPool, D3dPresentParameters,
    D3dPrimitiveType,
};

fn params(w: u32, h: u32) -> D3dPresentParameters {
    D3dPresentParameters {
        back_buffer_width: w,
        back_buffer_height: h,
        back_buffer_format: 21,
        back_buffer_count: 1,
        multi_sample_type: 0,
        multi_sample_quality: 0,
        swap_effect: 1,
        device_window: 0x1234,
        windowed: 1,
        enable_auto_depth_stencil: 0,
        auto_depth_stencil_format: 0,
        flags: 0,
        full_screen_refresh_rate: 0,
        presentation_interval: 0,
    }
}

fn device_data(heap: &ComHeap, p: ComPtr) -> D3d9DeviceData {
    match get_impl_data(heap, p) {
        Some(ImplData::D3d9Device(d)) => *d,
        _ => panic!("not a device"),
    }
}

fn setup() -> (ComHeap, ComPtr, ComPtr) {
    let mut heap = ComHeap::new();
    let d3d9 = direct3d_create9(&mut heap, 32);
    let mut dev = ComPtr::null();
    assert_eq!(create_device(&mut heap, d3d9, 0, 1, 0x99, 0x40, Some(&params(800, 600)), Some(&mut dev)), S_OK);
    (heap, d3d9, dev)
}

#[test]
fn direct3d_create9_has_one_adapter() {
    let mut heap = ComHeap::new();
    let d3d9 = direct3d_create9(&mut heap, 32);
    assert_eq!(get_adapter_count(&heap, d3d9), 1);
    assert_eq!(heap.type_id(d3d9), Some(TYPE_D3D9));
    assert_eq!(heap.ref_count(d3d9), 1);
    assert_eq!(get_adapter_count(&heap, ComPtr::null()), 0);
}

#[test]
fn direct3d9_query_interface() {
    let mut heap = ComHeap::new();
    let d3d9 = direct3d_create9(&mut heap, 32);
    let mut out = ComPtr::null();
    assert_eq!(heap.query_interface(d3d9, Some(&iid_idirect3d9()), Some(&mut out)), S_OK);
    assert_eq!(out, d3d9);
    assert_eq!(heap.query_interface(d3d9, Some(&iid_iunknown()), Some(&mut out)), S_OK);
    assert_eq!(heap.ref_count(d3d9), 3);
}

#[test]
fn create_device_takes_back_buffer_size() {
    let (heap, _d3d9, dev) = setup();
    let d = device_data(&heap, dev);
    assert_eq!(d.back_buffer_width, 800);
    assert_eq!(d.back_buffer_height, 600);
    assert_eq!(d.focus_window, 0x99);
    assert_eq!(d.behavior_flags, 0x40);
    assert_eq!(d.textures, [0; 8]);
    assert_eq!(d.frame_count, 0);
    assert_eq!(heap.type_id(dev), Some(TYPE_D3D9_DEVICE));
    assert_eq!(heap.vtbl(dev).unwrap().interface, Some(iid_idirect3ddevice9()));
}

#[test]
fn create_device_argument_errors() {
    let mut heap = ComHeap::new();
    let d3d9 = direct3d_create9(&mut heap, 32);
    let mut dev = ComPtr { addr: 77 };
    assert_eq!(create_device(&mut heap, ComPtr::null(), 0, 1, 0, 0, Some(&params(1, 1)), Some(&mut dev)), E_INVALIDARG);
    assert_eq!(create_device(&mut heap, d3d9, 0, 1, 0, 0, None, Some(&mut dev)), E_INVALIDARG);
    assert_eq!(create_device(&mut heap, d3d9, 0, 1, 0, 0, Some(&params(1, 1)), None), E_INVALIDARG);
    assert_eq!(dev.addr, 77);
    assert!(!heap.is_live(ComPtr { addr: 2 }));
}

#[test]
fn present_counts_frames_and_resets_draws() {
    let (mut heap, _d3d9, dev) = setup();
    assert_eq!(draw_primitive(&mut heap, dev, 4, 0, 2), S_OK);
    assert_eq!(draw_primitive(&mut heap, dev, 4, 0, 2), S_OK);
    assert_eq!(device_data(&heap, dev).draw_calls, 2);
    assert_eq!(present(&mut heap, dev, 0, 0, 0, 0), S_OK);
    let d = device_data(&heap, dev);
    assert_eq!(d.frame_count, 1);
    assert_eq!(d.draw_calls, 0);
}

#[test]
fn present_forgets_draws_of_the_frame() {
    let (mut a, _, da) = setup();
    let (mut b, _, db) = setup();
    draw_primitive(&mut a, da, 4, 0, 1);
    present(&mut a, da, 0, 0, 0, 0);
    present(&mut b, db, 0, 0, 0, 0);
    assert_eq!(device_data(&a, da).draw_calls, device_data(&b, db).draw_calls);
    assert_eq!(device_data(&a, da).frame_count, device_data(&b, db).frame_count);
}

#[test]
fn null_device_is_invalid_call() {
    let mut heap = ComHeap::new();
    assert_eq!(present(&mut heap, ComPtr::null(), 0, 0, 0, 0), D3DERR_INVALIDCALL);
    assert_eq!(draw_primitive(&mut heap, ComPtr::null(), 4, 0, 1), D3DERR_INVALIDCALL);
    assert_eq!(set_texture(&mut heap, ComPtr::null(), 0, ComPtr::null()), D3DERR_INVALIDCALL);
}

#[test]
fn set_texture_binds_stage_and_ignores_high_stages() {
    let (mut heap, d3d9, dev) = setup();
    assert_eq!(set_texture(&mut heap, dev, 3, d3d9), S_OK);
    assert_eq!(device_data(&heap, dev).textures[3], d3d9.addr as u64);
    assert_eq!(set_texture(&mut heap, dev, 3, ComPtr::null()), S_OK);
    assert_eq!(device_data(&heap, dev).textures[3], 0);
    assert_eq!(set_texture(&mut heap, dev, 8, d3d9), S_OK);
    assert_eq!(device_data(&heap, dev).textures, [0; 8]);
}

#[test]
fn set_texture_last_binding_wins() {
    let (mut heap, d3d9, dev) = setup();
    set_texture(&mut heap, dev, 7, ComPtr { addr: 5 });
    set_texture(&mut heap, dev, 7, d3d9);
    assert_eq!(device_data(&heap, dev).textures[7], d3d9.addr as u64);
}

#[test]
fn create_vertex_buffer_and_texture() {
    let (mut heap, _d3d9, dev) = setup();
    let mut vb = ComPtr::null();
    assert_eq!(create_vertex_buffer(&mut heap, dev, 1024, 0, 0, D3dPool::Managed.value(), Some(&mut vb), 0), S_OK);
    assert_eq!(heap.type_id(vb), Some(TYPE_D3D9_VERTEX_BUFFER));
    let mut tex = ComPtr::null();
    assert_eq!(create_texture(&mut heap, dev, 64, 64, 1, 0, 21, 0, Some(&mut tex), 0), S_OK);
    assert_eq!(heap.type_id(tex), Some(TYPE_D3D9_TEXTURE));
    assert_eq!(tex.addr, vb.addr + 1);
    assert_eq!(create_vertex_buffer(&mut heap, ComPtr::null(), 1, 0, 0, 0, Some(&mut vb), 0), E_INVALIDARG);
    assert_eq!(create_texture(&mut heap, dev, 1, 1, 1, 0, 0, 0, None, 0), E_INVALIDARG);
}

#[test]
fn d3d9_enum_values() {
    assert_eq!(D3dPrimitiveType::PointList.value(), 1);
    assert_eq!(D3dPrimitiveType::TriangleList.value(), 4);
    assert_eq!(D3dPrimitiveType::TriangleFan.value(), 6);
    assert_eq!(D3dPool::Default.value(), 0);
    assert_eq!(D3dPool::Scratch.value(), 3);
}
