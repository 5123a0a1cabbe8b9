use dxvk_bridge_nostd::com::{get_impl_data, ComHeap, ComPtr, ImplData, DXGI_ERROR_NOT_FOUND, E_FAIL, E_INVALIDARG, S_OK,
    TYPE_DXGI_ADAPTER, TYPE_DXGI_FACTORY, TYPE_DXGI_SWAPCHAIN, create_com_object, default_iunknown_vtbl};
use dxvk_bridge_nostd::dxgi::{
    adapter_get_desc, com_utf8_to_utf16, create_dxgi_factory, create_swap_chain, enum_adapters, iid_idxgiadapter,
    iid_idxgifactory, init, swap_chain_get_buffer, swap_chain_present, DxgiAdapterDesc, DxgiSwapChainData,
    DxgiSwapChainDesc, DXGI_FORMAT_B8G8R8A8_UNORM,
};

fn empty_desc() -> DxgiAdapterDesc {
    DxgiAdapterDesc {
        description: [0xFFFF; 128], vendor_id: 0, device_id: 0, sub_sys_id: 9, revision: 9, dedicated_video_memory: 0,
        dedicated_system_memory: 9, shared_system_memory: 0, adapter_luid_low: 0, adapter_luid_high: 9,
    }
}

fn swap_desc(buffers: u32) -> DxgiSwapChainDesc {
    DxgiSwapChainDesc {
        buffer_width: 1280, buffer_height: 720, format: DXGI_FORMAT_B8G8R8A8_UNORM, refresh_rate_num: 60,
        refresh_rate_den: 1, buffer_usage: 0x20, buffer_count: buffers, output_window: 0xABC, windowed: 1,
        swap_effect: 0, flags: 0,
    }
}

fn swap_data(heap: &ComHeap, p: ComPtr) -> DxgiSwapChainData {
    match get_impl_data(heap, p) {
        Some(ImplData::DxgiSwapChain(d)) => *d,
        _ => panic!("not a swap chain"),
    }
}

fn factory() -> (ComHeap, ComPtr) {
    let mut heap = ComHeap::new();
    let mut f = ComPtr::null();
    assert_eq!(create_dxgi_factory(&mut heap, Some(&iid_idxgifactory()), Some(&mut f)), S_OK);
    (heap, f)
}

#[test]
fn factory_enumerates_one_adapter() {
    let (mut heap, f) = factory();
    assert_eq!(heap.type_id(f), Some(TYPE_DXGI_FACTORY));
    let mut a = ComPtr::null();
    assert_eq!(enum_adapters(&mut heap, f, 0, Some(&mut a)), S_OK);
    assert_eq!(heap.type_id(a), Some(TYPE_DXGI_ADAPTER));
    assert_eq!(heap.ref_count(a), 2);
    assert_eq!(heap.vtbl(a).unwrap().interface, Some(iid_idxgiadapter()));
    let mut b = ComPtr { addr: 55 };
    assert_eq!(enum_adapters(&mut heap, f, 1, Some(&mut b)), DXGI_ERROR_NOT_FOUND);
    assert_eq!(b.addr, 55);
    assert_eq!(heap.ref_count(a), 2);
}

#[test]
fn factory_argument_errors() {
    let mut heap = ComHeap::new();
    assert_eq!(create_dxgi_factory(&mut heap, None, None), E_INVALIDARG);
    assert!(!heap.is_live(ComPtr { addr: 1 }));
    let (mut heap, f) = factory();
    assert_eq!(enum_adapters(&mut heap, ComPtr::null(), 0, None), E_INVALIDARG);
    assert_eq!(enum_adapters(&mut heap, f, 0, None), E_INVALIDARG);
}

#[test]
fn enum_adapters_on_other_object_is_not_found() {
    let mut heap = ComHeap::new();
    let p = create_com_object(&mut heap, 0, default_iunknown_vtbl());
    let mut a = ComPtr::null();
    assert_eq!(enum_adapters(&mut heap, p, 0, Some(&mut a)), DXGI_ERROR_NOT_FOUND);
}

#[test]
fn adapter_description() {
    let (mut heap, f) = factory();
    let mut a = ComPtr::null();
    enum_adapters(&mut heap, f, 0, Some(&mut a));
    let mut desc = empty_desc();
    assert_eq!(adapter_get_desc(&heap, a, Some(&mut desc)), S_OK);
    let name: Vec<u16> = "bare-metal OS Vulkan Adapter".encode_utf16().collect();
    assert_eq!(&desc.description[..name.len()], &name[..]);
    assert!(desc.description[name.len()..].iter().all(|&u| u == 0));
    assert_eq!(desc.vendor_id, 0x10DE);
    assert_eq!(desc.device_id, 0x2484);
    assert_eq!(desc.sub_sys_id, 0);
    assert_eq!(desc.revision, 0);
    assert_eq!(desc.dedicated_video_memory, 8 * 1024 * 1024 * 1024);
    assert_eq!(desc.dedicated_system_memory, 0);
    assert_eq!(desc.shared_system_memory, 512 * 1024 * 1024);
    assert_eq!(desc.adapter_luid_low, 1);
    assert_eq!(desc.adapter_luid_high, 0);
}

#[test]
fn adapter_description_errors() {
    let (heap, f) = factory();
    let mut desc = empty_desc();
    assert_eq!(adapter_get_desc(&heap, ComPtr::null(), Some(&mut desc)), E_INVALIDARG);
    assert_eq!(adapter_get_desc(&heap, ComPtr { addr: 1 }, None), E_INVALIDARG);
    assert_eq!(adapter_get_desc(&heap, f, Some(&mut desc)), E_FAIL);
    assert_eq!(desc.description, [0xFFFF; 128]);
    assert_eq!(desc.sub_sys_id, 9);
}

#[test]
fn swap_chain_cycles_back_buffers() {
    let (mut heap, f) = factory();
    let mut sc = ComPtr::null();
    assert_eq!(create_swap_chain(&mut heap, f, ComPtr { addr: 1 }, Some(&swap_desc(3)), Some(&mut sc)), S_OK);
    assert_eq!(heap.type_id(sc), Some(TYPE_DXGI_SWAPCHAIN));
    let d = swap_data(&heap, sc);
    assert_eq!((d.width, d.height, d.buffer_count, d.window), (1280, 720, 3, 0xABC));
    assert_eq!(d.factory, f);
    let mut seen = Vec::new();
    for _ in 0..4 {
        assert_eq!(swap_chain_present(&mut heap, sc, 1, 0), S_OK);
        seen.push(swap_data(&heap, sc).current_buffer);
    }
    assert_eq!(seen, vec![1, 2, 0, 1]);
    assert_eq!(swap_data(&heap, sc).present_count, 4);
}

#[test]
fn swap_chain_with_no_buffers_stays_at_zero() {
    let (mut heap, f) = factory();
    let mut sc = ComPtr::null();
    create_swap_chain(&mut heap, f, ComPtr { addr: 1 }, Some(&swap_desc(0)), Some(&mut sc));
    swap_chain_present(&mut heap, sc, 0, 0);
    swap_chain_present(&mut heap, sc, 0, 0);
    assert_eq!(swap_data(&heap, sc).current_buffer, 0);
}

#[test]
fn swap_chain_argument_errors() {
    let (mut heap, f) = factory();
    let mut sc = ComPtr { addr: 33 };
    assert_eq!(create_swap_chain(&mut heap, ComPtr::null(), ComPtr { addr: 1 }, Some(&swap_desc(2)), Some(&mut sc)), E_INVALIDARG);
    assert_eq!(create_swap_chain(&mut heap, f, ComPtr::null(), Some(&swap_desc(2)), Some(&mut sc)), E_INVALIDARG);
    assert_eq!(create_swap_chain(&mut heap, f, ComPtr { addr: 1 }, None, Some(&mut sc)), E_INVALIDARG);
    assert_eq!(create_swap_chain(&mut heap, f, ComPtr { addr: 1 }, Some(&swap_desc(2)), None), E_INVALIDARG);
    assert_eq!(sc.addr, 33);
    assert_eq!(swap_chain_present(&mut heap, ComPtr::null(), 0, 0), E_INVALIDARG);
}

#[test]
fn get_buffer_creates_surface() {
    let (mut heap, f) = factory();
    let mut sc = ComPtr::null();
    create_swap_chain(&mut heap, f, ComPtr { addr: 1 }, Some(&swap_desc(2)), Some(&mut sc));
    let mut surf = ComPtr::null();
    assert_eq!(swap_chain_get_buffer(&mut heap, sc, 0, None, Some(&mut surf)), S_OK);
    assert_eq!(surf.addr, sc.addr + 1);
    assert_eq!(heap.type_id(surf), Some(0));
    assert_eq!(swap_chain_get_buffer(&mut heap, ComPtr::null(), 0, None, Some(&mut surf)), E_INVALIDARG);
    assert_eq!(swap_chain_get_buffer(&mut heap, sc, 0, None, None), E_INVALIDARG);
}

#[test]
fn utf16_conversion() {
    assert_eq!(com_utf8_to_utf16("abc"), vec![0x61, 0x62, 0x63]);
    assert_eq!(com_utf8_to_utf16(""), Vec::<u16>::new());
    assert_eq!(com_utf8_to_utf16("é"), vec![0xE9]);
    assert_eq!(com_utf8_to_utf16("\u{1F600}"), vec![0xD83D, 0xDE00]);
    let s = "x\u{10437}y";
    assert_eq!(com_utf8_to_utf16(s), s.encode_utf16().collect::<Vec<u16>>());
}

#[test]
fn dxgi_init_runs() {
    init();
}
