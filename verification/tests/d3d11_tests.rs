use dxvk_bridge_nostd::com::{get_impl_data, ComHeap, ComPtr, ImplData, E_INVALIDARG, S_OK, TYPE_D3D11_BUFFER,
    TYPE_D3D11_CONTEXT, TYPE_D3D11_DEVICE, TYPE_D3D11_TEXTURE2D};
use dxvk_bridge_nostd::d3d11::{
    create_buffer, create_texture2d, d3d11_create_device, draw, draw_indexed, iid_id3d11device,
    iid_id3d11devicecontext, ps_set_shader, vs_set_shader, D3d11BufferDesc, D3d11ContextData, D3d11DeviceData,
    D3d11SubresourceData, D3d11Texture2dDesc, D3dFeatureLevel, D3D11_BIND_VERTEX_BUFFER,
};

fn device_data(heap: &ComHeap, p: ComPtr) -> D3d11DeviceData {
    match get_impl_data(heap, p) {
        Some(ImplData::D3d11Device(d)) => *d,
        _ => panic!("not a device"),
    }
}

fn context_data(heap: &ComHeap, p: ComPtr) -> D3d11ContextData {
    match get_impl_data(heap, p) {
        Some(ImplData::D3d11Context(d)) => *d,
        _ => panic!("not a context"),
    }
}

fn setup() -> (ComHeap, ComPtr, ComPtr) {
    let mut heap = ComHeap::new();
    let mut dev = ComPtr::null();
    let mut ctx = ComPtr::null();
    let mut level = 0u32;
    assert_eq!(
        d3d11_create_device(&mut heap, ComPtr::null(), 1, 0, 0, None, 0, 7, Some(&mut dev), Some(&mut level), Some(&mut ctx)),
        S_OK
    );
    assert_eq!(level, 0xb100);
    (heap, dev, ctx)
}

fn buffer_desc() -> D3d11BufferDesc {
    D3d11BufferDesc { byte_width: 256, usage: 0, bind_flags: D3D11_BIND_VERTEX_BUFFER, cpu_access_flags: 0, misc_flags: 0, structure_byte_stride: 0 }
}

fn texture_desc() -> D3d11Texture2dDesc {
    D3d11Texture2dDesc { width: 64, height: 32, mip_levels: 1, array_size: 1, format: 28, sample_count: 1, sample_quality: 0,
        usage: 0, bind_flags: 0, cpu_access_flags: 0, misc_flags: 0 }
}

#[test]
fn create_device_links_device_and_context() {
    let (heap, dev, ctx) = setup();
    assert_eq!(ctx.addr, 1);
    assert_eq!(dev.addr, 2);
    assert_eq!(device_data(&heap, dev).immediate_context, ctx);
    assert_eq!(context_data(&heap, ctx).device, dev);
    assert_eq!(device_data(&heap, dev).feature_level, 0xb100);
    assert_eq!(heap.type_id(dev), Some(TYPE_D3D11_DEVICE));
    assert_eq!(heap.type_id(ctx), Some(TYPE_D3D11_CONTEXT));
    assert_eq!(heap.vtbl(dev).unwrap().interface, Some(iid_id3d11device()));
    assert_eq!(heap.vtbl(ctx).unwrap().interface, Some(iid_id3d11devicecontext()));
    assert_eq!(heap.ref_count(dev), 1);
    assert_eq!(heap.ref_count(ctx), 1);
}

#[test]
fn create_device_takes_first_requested_level() {
    let mut heap = ComHeap::new();
    let levels = [0xa000u32, 0xb000];
    let mut level = 0u32;
    let mut dev = ComPtr::null();
    assert_eq!(d3d11_create_device(&mut heap, ComPtr::null(), 1, 0, 0, Some(&levels[..]), 2, 7, Some(&mut dev), Some(&mut level), None), S_OK);
    assert_eq!(level, 0xa000);
    assert_eq!(device_data(&heap, dev).feature_level, 0xa000);
    let mut level2 = 0u32;
    assert_eq!(d3d11_create_device(&mut heap, ComPtr::null(), 1, 0, 0, Some(&levels[..]), 0, 7, None, Some(&mut level2), None), S_OK);
    assert_eq!(level2, D3dFeatureLevel::Level11_1.value());
}

#[test]
fn create_buffer_and_texture_count_on_device() {
    let (mut heap, dev, _ctx) = setup();
    let mut buf = ComPtr::null();
    assert_eq!(create_buffer(&mut heap, dev, Some(&buffer_desc()), None, Some(&mut buf)), S_OK);
    assert_eq!(heap.type_id(buf), Some(TYPE_D3D11_BUFFER));
    let init = D3d11SubresourceData { sys_mem: 0x1000, sys_mem_pitch: 0, sys_mem_slice_pitch: 0 };
    assert_eq!(create_buffer(&mut heap, dev, Some(&buffer_desc()), Some(&init), Some(&mut buf)), S_OK);
    let mut tex = ComPtr::null();
    assert_eq!(create_texture2d(&mut heap, dev, Some(&texture_desc()), None, Some(&mut tex)), S_OK);
    assert_eq!(heap.type_id(tex), Some(TYPE_D3D11_TEXTURE2D));
    assert_eq!(device_data(&heap, dev).buffer_count, 2);
    assert_eq!(device_data(&heap, dev).texture_count, 1);
}

#[test]
fn create_buffer_argument_errors() {
    let (mut heap, dev, _ctx) = setup();
    let mut buf = ComPtr { addr: 42 };
    assert_eq!(create_buffer(&mut heap, ComPtr::null(), Some(&buffer_desc()), None, Some(&mut buf)), E_INVALIDARG);
    assert_eq!(create_buffer(&mut heap, dev, None, None, Some(&mut buf)), E_INVALIDARG);
    assert_eq!(create_buffer(&mut heap, dev, Some(&buffer_desc()), None, None), E_INVALIDARG);
    assert_eq!(create_texture2d(&mut heap, dev, None, None, Some(&mut buf)), E_INVALIDARG);
    assert_eq!(buf.addr, 42);
    assert_eq!(device_data(&heap, dev).buffer_count, 0);
    assert_eq!(device_data(&heap, dev).texture_count, 0);
}

#[test]
fn draws_count_on_context() {
    let (mut heap, _dev, ctx) = setup();
    draw(&mut heap, ctx, 3, 0);
    draw_indexed(&mut heap, ctx, 6, 0, -1);
    assert_eq!(context_data(&heap, ctx).draw_calls, 2);
    draw(&mut heap, ComPtr::null(), 3, 0);
    assert_eq!(context_data(&heap, ctx).draw_calls, 2);
}

#[test]
fn shaders_bind_on_context() {
    let (mut heap, _dev, ctx) = setup();
    vs_set_shader(&mut heap, ctx, 0xAAAA, 0, 0);
    ps_set_shader(&mut heap, ctx, 0xBBBB, 0, 0);
    let d = context_data(&heap, ctx);
    assert_eq!(d.vs_shader, 0xAAAA);
    assert_eq!(d.ps_shader, 0xBBBB);
    vs_set_shader(&mut heap, ComPtr::null(), 1, 0, 0);
    assert_eq!(context_data(&heap, ctx).vs_shader, 0xAAAA);
}

#[test]
fn feature_level_values() {
    assert_eq!(D3dFeatureLevel::Level9_1.value(), 0x9100);
    assert_eq!(D3dFeatureLevel::Level10_1.value(), 0xa100);
    assert_eq!(D3dFeatureLevel::Level12_1.value(), 0xc100);
}
