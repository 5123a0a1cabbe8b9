//! DXGI (DirectX Graphics Infrastructure).
//!
//! IDXGIFactory, IDXGIAdapter and IDXGISwapChain as COM objects in a `ComHeap`.

use vstd::prelude::*;
use crate::com::{
    is_live, ComBase, ComHeap, HeapView, ComPtr, Guid, HResult, IUnknownVtbl, ImplData, guid_of, impl_data_of, next_ptr,
    null_or_live, with_impl_data, with_new_object, create_com_object, create_com_object_with_data,
    get_impl_data, spec_default_iunknown_vtbl, default_iunknown_vtbl, can_add_ref, after_add_ref,
    S_OK, E_INVALIDARG, E_FAIL, DXGI_ERROR_NOT_FOUND, TYPE_DXGI_FACTORY, TYPE_DXGI_ADAPTER,
    TYPE_DXGI_SWAPCHAIN,
};

verus! {

// =============================================================================
// DXGI GUIDs
// =============================================================================

pub open spec fn spec_iid_idxgifactory() -> Guid {
    guid_of(0x7B7166EC, 0x21C7, 0x44AE, [0xB2, 0x1A, 0xC9, 0xAE, 0x32, 0x1A, 0xE3, 0x69])
}

/// IID_IDXGIFactory: {7B7166EC-21C7-44AE-B21A-C9AE321AE369}
#[verifier::when_used_as_spec(spec_iid_idxgifactory)]
pub fn iid_idxgifactory() -> (g: Guid)
    ensures
        g == spec_iid_idxgifactory(),
{
    Guid { data1: 0x7B7166EC, data2: 0x21C7, data3: 0x44AE, data4: [0xB2, 0x1A, 0xC9, 0xAE, 0x32, 0x1A, 0xE3, 0x69] }
}

pub open spec fn spec_iid_idxgiadapter() -> Guid {
    guid_of(0x2411E7E1, 0x12AC, 0x4CCF, [0xBD, 0x14, 0x97, 0x98, 0xE8, 0x53, 0x4D, 0xC0])
}

/// IID_IDXGIAdapter: {2411E7E1-12AC-4CCF-BD14-9798E8534DC0}
#[verifier::when_used_as_spec(spec_iid_idxgiadapter)]
pub fn iid_idxgiadapter() -> (g: Guid)
    ensures
        g == spec_iid_idxgiadapter(),
{
    Guid { data1: 0x2411E7E1, data2: 0x12AC, data3: 0x4CCF, data4: [0xBD, 0x14, 0x97, 0x98, 0xE8, 0x53, 0x4D, 0xC0] }
}

pub open spec fn spec_iid_idxgiswapchain() -> Guid {
    guid_of(0x310D36A0, 0xD2E7, 0x4C0A, [0xAA, 0x04, 0x6A, 0x9D, 0x23, 0xB8, 0x88, 0x6A])
}

/// IID_IDXGISwapChain: {310D36A0-D2E7-4C0A-AA04-6A9D23B8886A}
#[verifier::when_used_as_spec(spec_iid_idxgiswapchain)]
pub fn iid_idxgiswapchain() -> (g: Guid)
    ensures
        g == spec_iid_idxgiswapchain(),
{
    Guid { data1: 0x310D36A0, data2: 0xD2E7, data3: 0x4C0A, data4: [0xAA, 0x04, 0x6A, 0x9D, 0x23, 0xB8, 0x88, 0x6A] }
}

// =============================================================================
// DXGI types
// =============================================================================

/// DXGI_SWAP_CHAIN_DESC.
pub struct DxgiSwapChainDesc {
    pub buffer_width: u32,
    pub buffer_height: u32,
    /// DXGI_FORMAT
    pub format: u32,
    pub refresh_rate_num: u32,
    pub refresh_rate_den: u32,
    /// DXGI_USAGE
    pub buffer_usage: u32,
    pub buffer_count: u32,
    /// HWND
    pub output_window: u64,
    /// BOOL
    pub windowed: i32,
    /// DXGI_SWAP_EFFECT
    pub swap_effect: u32,
    pub flags: u32,
}

/// DXGI_ADAPTER_DESC.
pub struct DxgiAdapterDesc {
    pub description: [u16; 128],
    pub vendor_id: u32,
    pub device_id: u32,
    pub sub_sys_id: u32,
    pub revision: u32,
    pub dedicated_video_memory: u64,
    pub dedicated_system_memory: u64,
    pub shared_system_memory: u64,
    pub adapter_luid_low: u32,
    pub adapter_luid_high: i32,
}

/// DXGI_FORMAT (commonly used values).
pub const DXGI_FORMAT_UNKNOWN: u32 = 0;
pub const DXGI_FORMAT_R8G8B8A8_UNORM: u32 = 28;
pub const DXGI_FORMAT_R8G8B8A8_UNORM_SRGB: u32 = 29;
pub const DXGI_FORMAT_B8G8R8A8_UNORM: u32 = 87;
pub const DXGI_FORMAT_B8G8R8A8_UNORM_SRGB: u32 = 91;
pub const DXGI_FORMAT_R16G16B16A16_FLOAT: u32 = 10;
pub const DXGI_FORMAT_D24_UNORM_S8_UINT: u32 = 45;
pub const DXGI_FORMAT_D32_FLOAT: u32 = 40;

/// DXGI_SWAP_EFFECT.
pub const DXGI_SWAP_EFFECT_DISCARD: u32 = 0;
pub const DXGI_SWAP_EFFECT_SEQUENTIAL: u32 = 1;
pub const DXGI_SWAP_EFFECT_FLIP_SEQUENTIAL: u32 = 3;
pub const DXGI_SWAP_EFFECT_FLIP_DISCARD: u32 = 4;

/// DXGI_PRESENT flags.
pub const DXGI_PRESENT_TEST: u32 = 0x00000001;
pub const DXGI_PRESENT_DO_NOT_SEQUENCE: u32 = 0x00000002;

/// Internal state for IDXGIFactory.
pub struct DxgiFactoryData {
    /// Enumerated adapters.
    pub adapters: Vec<ComPtr>,
}

/// Internal state for IDXGIAdapter.
pub struct DxgiAdapterData {
    pub index: u32,
    pub description: String,
    pub vendor_id: u32,
    pub device_id: u32,
    pub dedicated_video_memory: u64,
}

/// Internal state for IDXGISwapChain.
#[derive(Clone, Copy, Debug)]
pub struct DxgiSwapChainData {
    pub device: ComPtr,
    pub factory: ComPtr,
    pub width: u32,
    pub height: u32,
    pub format: u32,
    pub buffer_count: u32,
    pub window: u64,
    /// Present counter.
    pub present_count: u64,
    /// Current back buffer index.
    pub current_buffer: u32,
}

/// One code point as UTF-16: one unit below 0x10000, else a surrogate pair.
pub open spec fn utf16_of_char(c: char) -> Seq<u16> {
    let v = c as u32;
    if v < 0x10000 {
        seq![v as u16]
    } else {
        seq![(0xD800 + (v - 0x10000) / 0x400) as u16, (0xDC00 + (v - 0x10000) % 0x400) as u16]
    }
}

/// A string as UTF-16 code units, without a terminator.
pub open spec fn utf16_encode(s: Seq<char>) -> Seq<u16>
    decreases s.len(),
{
    if s.len() == 0 {
        Seq::empty()
    } else {
        utf16_encode(s.drop_last()) + utf16_of_char(s.last())
    }
}

/// Convert a string to UTF-16 code units (no null terminator).
pub fn com_utf8_to_utf16(s: &str) -> (v: Vec<u16>)
    ensures
        v@ == utf16_encode(s@),
{
    let mut out: Vec<u16> = Vec::new();
    for c in it: s.chars()
        invariant
            it.seq() == s@,
            out@ == utf16_encode(it.seq().take(it.index() as int)),
    {
        let ghost k = it.index() as int;
        assert(c == it.seq()[k]);
        assert(it.seq().take(k + 1).drop_last() =~= it.seq().take(k));
        assert(it.seq().take(k + 1).last() == c);
        let v = c as u32;
        if v < 0x10000 {
            out.push(v as u16);
        } else {
            let u = v - 0x10000;
            out.push((0xD800 + u / 0x400) as u16);
            out.push((0xDC00 + u % 0x400) as u16);
        }
    }
    assert(s@.take(s@.len() as int) =~= s@);
    out
}

// =============================================================================
// Interface tables
// =============================================================================

pub open spec fn spec_factory_vtbl() -> IUnknownVtbl {
    IUnknownVtbl { interface: Some(spec_iid_idxgifactory()) }
}

/// The IDXGIFactory table: QueryInterface grants IUnknown and IDXGIFactory.
#[verifier::when_used_as_spec(spec_factory_vtbl)]
pub fn factory_vtbl() -> (v: IUnknownVtbl)
    ensures
        v == spec_factory_vtbl(),
{
    IUnknownVtbl { interface: Some(iid_idxgifactory()) }
}

pub open spec fn spec_adapter_vtbl() -> IUnknownVtbl {
    IUnknownVtbl { interface: Some(spec_iid_idxgiadapter()) }
}

/// The IDXGIAdapter table: QueryInterface grants IUnknown and IDXGIAdapter.
#[verifier::when_used_as_spec(spec_adapter_vtbl)]
pub fn adapter_vtbl() -> (v: IUnknownVtbl)
    ensures
        v == spec_adapter_vtbl(),
{
    IUnknownVtbl { interface: Some(iid_idxgiadapter()) }
}

pub open spec fn spec_swapchain_vtbl() -> IUnknownVtbl {
    IUnknownVtbl { interface: Some(spec_iid_idxgiswapchain()) }
}

/// The IDXGISwapChain table: QueryInterface grants IUnknown and
/// IDXGISwapChain.
#[verifier::when_used_as_spec(spec_swapchain_vtbl)]
pub fn swapchain_vtbl() -> (v: IUnknownVtbl)
    ensures
        v == spec_swapchain_vtbl(),
{
    IUnknownVtbl { interface: Some(iid_idxgiswapchain()) }
}

// =============================================================================
// Specifications
// =============================================================================

/// The description of the adapter every factory enumerates.
pub open spec fn default_adapter_description() -> Seq<char> {
    "bare-metal OS Vulkan Adapter"@
}

/// The adapter every factory enumerates: index 0, vendor 0x10DE, device
/// 0x2484, 8 GiB of video memory.
pub open spec fn is_default_adapter(d: DxgiAdapterData) -> bool {
    &&& d.index == 0
    &&& d.description@ == default_adapter_description()
    &&& d.vendor_id == 0x10DE
    &&& d.device_id == 0x2484
    &&& d.dedicated_video_memory == 8 * 1024 * 1024 * 1024
}

/// `t` is `s` after CreateDXGIFactory: the default adapter at `next_ptr(s)`,
/// then a factory enumerating exactly that adapter.
pub open spec fn created_factory(s: HeapView, t: HeapView) -> bool {
    let a = next_ptr(s);
    let f = s.len() + 1int;
    &&& t.len() == s.len() + 2
    &&& t.subrange(0, s.len() as int) == s
    &&& is_default_adapter_object(t[a.addr as int])
    &&& is_factory_object(t[f], seq![a])
}

/// A new adapter object holding the default adapter.
pub open spec fn is_default_adapter_object(slot: Option<ComBase>) -> bool {
    match slot {
        Some(o) => {
            &&& o.vtbl == spec_adapter_vtbl()
            &&& o.ref_count == 1
            &&& o.type_id == TYPE_DXGI_ADAPTER
            &&& match o.impl_data {
                Some(ImplData::DxgiAdapter(d)) => is_default_adapter(d),
                _ => false,
            }
        },
        None => false,
    }
}

/// A new factory object enumerating `adapters`.
pub open spec fn is_factory_object(slot: Option<ComBase>, adapters: Seq<ComPtr>) -> bool {
    match slot {
        Some(o) => {
            &&& o.vtbl == spec_factory_vtbl()
            &&& o.ref_count == 1
            &&& o.type_id == TYPE_DXGI_FACTORY
            &&& match o.impl_data {
                Some(ImplData::DxgiFactory(d)) => d.adapters@ == adapters,
                _ => false,
            }
        },
        None => false,
    }
}

/// The adapter that factory `f` enumerates at `index`, if any.
pub open spec fn enumerated_adapter(s: HeapView, f: ComPtr, index: u32) -> Option<ComPtr> {
    match impl_data_of(s, f) {
        Some(ImplData::DxgiFactory(d)) => if index < d.adapters@.len() {
            Some(d.adapters@[index as int])
        } else {
            None
        },
        _ => None,
    }
}

/// The data of adapter `p`, where `p` holds some.
pub open spec fn adapter_data(s: HeapView, p: ComPtr) -> Option<DxgiAdapterData> {
    match impl_data_of(s, p) {
        Some(ImplData::DxgiAdapter(d)) => Some(d),
        _ => None,
    }
}

/// The description field of an adapter description: the UTF-16 units of the
/// name, at most 127 of them, padded with zeros to 128.
pub open spec fn description_units(units: Seq<u16>) -> Seq<u16> {
    Seq::new(128, |i: int| if i < units.len() && i < 127 { units[i] } else { 0u16 })
}

/// `desc` describes the adapter with data `d`.
pub open spec fn describes(desc: DxgiAdapterDesc, d: DxgiAdapterData) -> bool {
    &&& desc.description@ == description_units(utf16_encode(d.description@))
    &&& desc.vendor_id == d.vendor_id
    &&& desc.device_id == d.device_id
    &&& desc.sub_sys_id == 0
    &&& desc.revision == 0
    &&& desc.dedicated_video_memory == d.dedicated_video_memory
    &&& desc.dedicated_system_memory == 0
    &&& desc.shared_system_memory == 512 * 1024 * 1024
    &&& desc.adapter_luid_low == 1
    &&& desc.adapter_luid_high == 0
}

/// The swap chain data of `p`, where `p` holds some.
pub open spec fn swapchain_data(s: HeapView, p: ComPtr) -> Option<DxgiSwapChainData> {
    match impl_data_of(s, p) {
        Some(ImplData::DxgiSwapChain(d)) => Some(d),
        _ => None,
    }
}

/// The number of back buffers the index cycles through: at least one.
pub open spec fn cycle_length(buffer_count: u32) -> u32 {
    if buffer_count > 0 { buffer_count } else { 1 }
}

/// A swap chain after one present: one more frame, the next back buffer.
pub open spec fn presented(d: DxgiSwapChainData) -> DxgiSwapChainData {
    DxgiSwapChainData {
        present_count: (d.present_count + 1) as u64,
        current_buffer: ((d.current_buffer + 1) % (cycle_length(d.buffer_count) as int)) as u32,
        ..d
    }
}

/// Present may run on `p`: the counter has room for one more frame and the
/// buffer index for one more step.
pub open spec fn can_present(s: HeapView, p: ComPtr) -> bool {
    swapchain_data(s, p) is Some ==> {
        &&& swapchain_data(s, p)->0.present_count < u64::MAX
        &&& swapchain_data(s, p)->0.current_buffer < u32::MAX
    }
}

/// The heap after a present on `sc`.
pub open spec fn after_present(s: HeapView, sc: ComPtr) -> HeapView {
    match swapchain_data(s, sc) {
        Some(d) => with_impl_data(s, sc, ImplData::DxgiSwapChain(presented(d))),
        None => s,
    }
}

/// The state of a new swap chain built from `desc`.
pub open spec fn new_swapchain_data(device: ComPtr, factory: ComPtr, desc: DxgiSwapChainDesc) -> DxgiSwapChainData {
    DxgiSwapChainData {
        device,
        factory,
        width: desc.buffer_width,
        height: desc.buffer_height,
        format: desc.format,
        buffer_count: desc.buffer_count,
        window: desc.output_window,
        present_count: 0,
        current_buffer: 0,
    }
}

// =============================================================================
// DXGI API entry points
// =============================================================================

/// CreateDXGIFactory — create a DXGI factory that enumerates one adapter
/// standing for the Vulkan device.
pub fn create_dxgi_factory(heap: &mut ComHeap, riid: Option<&Guid>, factory_out: Option<&mut ComPtr>) -> (r: HResult)
    requires
        old(heap).wf(),
    ensures
        final(heap).wf(),
        r == (if factory_out is None { E_INVALIDARG } else { S_OK }),
        r != S_OK ==> final(heap)@ == old(heap)@,
        r == S_OK ==> created_factory(old(heap)@, final(heap)@),
        r == S_OK ==> final(factory_out.unwrap()).addr == old(heap)@.len() + 1,
{
    match factory_out {
        None => E_INVALIDARG,
        Some(out) => {
            proof {
                reveal_strlit("bare-metal OS Vulkan Adapter");
            }
            let adapter_data = DxgiAdapterData {
                index: 0,
                description: String::from_str("bare-metal OS Vulkan Adapter"),
                vendor_id: 0x10DE,
                device_id: 0x2484,
                dedicated_video_memory: 8 * 1024 * 1024 * 1024,
            };
            let adapter = create_com_object_with_data(heap, TYPE_DXGI_ADAPTER, adapter_vtbl(), ImplData::DxgiAdapter(adapter_data));
            let mut adapters: Vec<ComPtr> = Vec::new();
            adapters.push(adapter);
            let factory_data = DxgiFactoryData { adapters };
            let factory = create_com_object_with_data(heap, TYPE_DXGI_FACTORY, factory_vtbl(), ImplData::DxgiFactory(factory_data));
            assert(heap@.subrange(0, old(heap)@.len() as int) =~= old(heap)@);
            *out = factory;
            S_OK
        },
    }
}

/// IDXGIFactory::EnumAdapters — the adapter at `index`, with one more
/// reference taken on it.
pub fn enum_adapters(heap: &mut ComHeap, factory: ComPtr, index: u32, adapter_out: Option<&mut ComPtr>) -> (r: HResult)
    requires
        old(heap).wf(),
        adapter_out is Some ==> null_or_live(old(heap)@, factory),
        factory.addr != 0 && adapter_out is Some && enumerated_adapter(old(heap)@, factory, index) is Some
            ==> can_add_ref(old(heap)@, enumerated_adapter(old(heap)@, factory, index)->0),
    ensures
        final(heap).wf(),
        r == (if factory.addr == 0 || adapter_out is None {
            E_INVALIDARG
        } else if enumerated_adapter(old(heap)@, factory, index) is Some {
            S_OK
        } else {
            DXGI_ERROR_NOT_FOUND
        }),
        r != S_OK ==> final(heap)@ == old(heap)@,
        r != S_OK && adapter_out is Some ==> *final(adapter_out.unwrap()) == *old(adapter_out.unwrap()),
        r == S_OK ==> final(heap)@ == after_add_ref(old(heap)@, enumerated_adapter(old(heap)@, factory, index)->0),
        r == S_OK ==> *final(adapter_out.unwrap()) == enumerated_adapter(old(heap)@, factory, index)->0,
{
    if factory.is_null() || adapter_out.is_none() {
        return E_INVALIDARG;
    }
    let found: Option<ComPtr> = match get_impl_data(heap, factory) {
        Some(ImplData::DxgiFactory(d)) => {
            if (index as usize) < d.adapters.len() {
                Some(d.adapters[index as usize])
            } else {
                None
            }
        },
        _ => None,
    };
    match found {
        Some(adapter) => {
            heap.add_ref(adapter);
            match adapter_out {
                Some(out) => { *out = adapter; },
                None => {},
            }
            S_OK
        },
        None => DXGI_ERROR_NOT_FOUND,
    }
}

/// IDXGIAdapter::GetDesc — describe the adapter: its name as UTF-16 (at
/// most 127 units, zero-padded), its ids and its memory sizes.
pub fn adapter_get_desc(heap: &ComHeap, adapter: ComPtr, desc: Option<&mut DxgiAdapterDesc>) -> (r: HResult)
    requires
        desc is Some ==> null_or_live(heap@, adapter),
    ensures
        r == (if adapter.addr == 0 || desc is None {
            E_INVALIDARG
        } else if adapter_data(heap@, adapter) is Some {
            S_OK
        } else {
            E_FAIL
        }),
        r != S_OK && desc is Some ==> *final(desc.unwrap()) == *old(desc.unwrap()),
        r == S_OK ==> describes(*final(desc.unwrap()), adapter_data(heap@, adapter)->0),
{
    if adapter.is_null() || desc.is_none() {
        return E_INVALIDARG;
    }
    match get_impl_data(heap, adapter) {
        Some(ImplData::DxgiAdapter(data)) => {
            let utf16 = com_utf8_to_utf16(data.description.as_str());
            let copy_len: usize = if utf16.len() < 127 { utf16.len() } else { 127 };
            let mut description = [0u16; 128];
            let mut i: usize = 0;
            while i < copy_len
                invariant
                    copy_len <= 127,
                    copy_len <= utf16@.len(),
                    i <= copy_len,
                    description@.len() == 128,
                    forall|j: int| 0 <= j < i ==> description@[j] == utf16@[j],
                    forall|j: int| i <= j < 128 ==> description@[j] == 0,
                decreases copy_len - i,
            {
                description[i] = utf16[i];
                i = i + 1;
            }
            assert(description@ =~= description_units(utf16_encode(data.description@)));
            match desc {
                Some(out) => {
                    out.description = description;
                    out.vendor_id = data.vendor_id;
                    out.device_id = data.device_id;
                    out.sub_sys_id = 0;
                    out.revision = 0;
                    out.dedicated_video_memory = data.dedicated_video_memory;
                    out.dedicated_system_memory = 0;
                    out.shared_system_memory = 512 * 1024 * 1024;
                    out.adapter_luid_low = 1;
                    out.adapter_luid_high = 0;
                },
                None => {},
            }
            S_OK
        },
        _ => E_FAIL,
    }
}

/// IDXGIFactory::CreateSwapChain — a swap chain with the size, format,
/// buffer count and window of the description.
pub fn create_swap_chain(
    heap: &mut ComHeap,
    factory: ComPtr,
    device: ComPtr,
    desc: Option<&DxgiSwapChainDesc>,
    swapchain_out: Option<&mut ComPtr>,
) -> (r: HResult)
    requires
        old(heap).wf(),
    ensures
        final(heap).wf(),
        r == (if factory.addr == 0 || device.addr == 0 || desc is None || swapchain_out is None { E_INVALIDARG } else { S_OK }),
        r != S_OK ==> final(heap)@ == old(heap)@,
        r != S_OK && swapchain_out is Some ==> *final(swapchain_out.unwrap()) == *old(swapchain_out.unwrap()),
        r == S_OK ==> final(heap)@ == with_new_object(old(heap)@, spec_swapchain_vtbl(), TYPE_DXGI_SWAPCHAIN,
            Some(ImplData::DxgiSwapChain(new_swapchain_data(device, factory, *desc.unwrap())))),
        r == S_OK ==> *final(swapchain_out.unwrap()) == next_ptr(old(heap)@),
{
    if factory.is_null() || device.is_null() || desc.is_none() || swapchain_out.is_none() {
        return E_INVALIDARG;
    }
    let d = desc.unwrap();
    let data = DxgiSwapChainData {
        device,
        factory,
        width: d.buffer_width,
        height: d.buffer_height,
        format: d.format,
        buffer_count: d.buffer_count,
        window: d.output_window,
        present_count: 0,
        current_buffer: 0,
    };
    let swapchain = create_com_object_with_data(heap, TYPE_DXGI_SWAPCHAIN, swapchain_vtbl(), ImplData::DxgiSwapChain(data));
    match swapchain_out {
        Some(out) => { *out = swapchain; },
        None => {},
    }
    S_OK
}

/// IDXGISwapChain::Present — count one more frame and move to the next back
/// buffer, cycling through `max(buffer_count, 1)` of them.
pub fn swap_chain_present(heap: &mut ComHeap, swapchain: ComPtr, sync_interval: u32, flags: u32) -> (r: HResult)
    requires
        old(heap).wf(),
        null_or_live(old(heap)@, swapchain),
        can_present(old(heap)@, swapchain),
    ensures
        final(heap).wf(),
        r == (if swapchain.addr == 0 { E_INVALIDARG } else { S_OK }),
        final(heap)@ == (if swapchain.addr == 0 { old(heap)@ } else { after_present(old(heap)@, swapchain) }),
{
    if swapchain.is_null() {
        return E_INVALIDARG;
    }
    let sd: Option<DxgiSwapChainData> = match get_impl_data(heap, swapchain) {
        Some(ImplData::DxgiSwapChain(d)) => Some(*d),
        _ => None,
    };
    match sd {
        Some(d) => {
            let cycle: u32 = if d.buffer_count > 0 { d.buffer_count } else { 1 };
            let nd = DxgiSwapChainData {
                present_count: d.present_count + 1,
                current_buffer: (d.current_buffer + 1) % cycle,
                ..d
            };
            heap.set_impl_data(swapchain, ImplData::DxgiSwapChain(nd));
        },
        None => {},
    }
    S_OK
}

/// IDXGISwapChain::GetBuffer — a new plain COM object (type 0) standing for
/// the back buffer.
pub fn swap_chain_get_buffer(
    heap: &mut ComHeap,
    swapchain: ComPtr,
    buffer_index: u32,
    riid: Option<&Guid>,
    surface_out: Option<&mut ComPtr>,
) -> (r: HResult)
    requires
        old(heap).wf(),
    ensures
        final(heap).wf(),
        r == (if swapchain.addr == 0 || surface_out is None { E_INVALIDARG } else { S_OK }),
        r != S_OK ==> final(heap)@ == old(heap)@,
        r != S_OK && surface_out is Some ==> *final(surface_out.unwrap()) == *old(surface_out.unwrap()),
        r == S_OK ==> final(heap)@ == with_new_object(old(heap)@, spec_default_iunknown_vtbl(), 0, None),
        r == S_OK ==> *final(surface_out.unwrap()) == next_ptr(old(heap)@),
{
    if swapchain.is_null() || surface_out.is_none() {
        return E_INVALIDARG;
    }
    let tex = create_com_object(heap, 0, default_iunknown_vtbl());
    match surface_out {
        Some(out) => { *out = tex; },
        None => {},
    }
    S_OK
}

/// Initialize the DXGI subsystem; it keeps no state of its own.
pub fn init() {
}

// =============================================================================
// Laws
// =============================================================================

/// A new factory enumerates exactly one adapter: the one created with it,
/// at index 0.
pub proof fn lemma_new_factory_enumerates_one_adapter(s: HeapView, t: HeapView, index: u32)
    requires
        created_factory(s, t),
        s.len() + 1 <= usize::MAX,
    ensures
        enumerated_adapter(t, ComPtr { addr: (s.len() + 1) as usize }, index)
            == (if index == 0 { Some(next_ptr(s)) } else { None::<ComPtr> }),
{
}

/// The back buffer index of a swap chain stays below its cycle length
/// across presents.
pub proof fn lemma_present_keeps_buffer_in_range(d: DxgiSwapChainData)
    requires
        d.current_buffer < u32::MAX,
    ensures
        presented(d).current_buffer < cycle_length(d.buffer_count),
        presented(d).buffer_count == d.buffer_count,
{
}

/// An adapter description always holds 128 units and ends with a zero unit.
pub proof fn lemma_description_terminated(units: Seq<u16>)
    ensures
        description_units(units).len() == 128,
        description_units(units)[127] == 0,
{
}

/// UTF-16 encoding distributes over concatenation.
pub proof fn lemma_utf16_concat(a: Seq<char>, b: Seq<char>)
    ensures
        utf16_encode(a + b) == utf16_encode(a) + utf16_encode(b),
    decreases b.len(),
{
    if b.len() == 0 {
        assert(a + b =~= a);
        assert(utf16_encode(a) + utf16_encode(b) =~= utf16_encode(a));
    } else {
        assert((a + b).drop_last() =~= a + b.drop_last());
        assert((a + b).last() == b.last());
        lemma_utf16_concat(a, b.drop_last());
        assert(utf16_encode(a + b) =~= utf16_encode(a) + utf16_encode(b));
    }
}

/// A string of characters below U+10000 encodes to one unit per character,
/// each the character's code point.
pub proof fn lemma_utf16_bmp(s: Seq<char>)
    requires
        forall|i: int| 0 <= i < s.len() ==> (#[trigger] s[i] as u32) < 0x10000,
    ensures
        utf16_encode(s).len() == s.len(),
        forall|i: int| 0 <= i < s.len() ==> #[trigger] utf16_encode(s)[i] == (s[i] as u32) as u16,
    decreases s.len(),
{
    if s.len() > 0 {
        let p = s.drop_last();
        assert forall|i: int| 0 <= i < p.len() implies (#[trigger] p[i] as u32) < 0x10000 by {
            assert(p[i] == s[i]);
        }
        lemma_utf16_bmp(p);
        assert(s.last() == s[s.len() - 1]);
        assert forall|i: int| 0 <= i < s.len() implies #[trigger] utf16_encode(s)[i] == (s[i] as u32) as u16 by {
            if i < s.len() - 1 {
                assert(p[i] == s[i]);
            }
        }
    }
}

/// One present counts one more frame and moves the back buffer one step
/// round a cycle of `buffer_count` buffers (a single buffer where the count
/// is 0); nothing else of the swap chain changes.
pub proof fn lemma_present_step(d: DxgiSwapChainData)
    requires
        d.present_count < u64::MAX,
        d.current_buffer < u32::MAX,
    ensures
        presented(d).present_count == d.present_count + 1,
        d.buffer_count >= 1 ==> presented(d).current_buffer == (d.current_buffer + 1) % (d.buffer_count as int),
        d.buffer_count == 0 ==> presented(d).current_buffer == 0,
        presented(d).device == d.device && presented(d).factory == d.factory,
        presented(d).width == d.width && presented(d).height == d.height,
        presented(d).format == d.format && presented(d).buffer_count == d.buffer_count,
        presented(d).window == d.window,
{
}

/// A new swap chain records the described size, format, buffer count and
/// window, the factory and device it was created with, and starts at frame 0
/// on back buffer 0.
pub proof fn lemma_new_swapchain_records_desc(device: ComPtr, factory: ComPtr, desc: DxgiSwapChainDesc)
    ensures
        new_swapchain_data(device, factory, desc).width == desc.buffer_width,
        new_swapchain_data(device, factory, desc).height == desc.buffer_height,
        new_swapchain_data(device, factory, desc).format == desc.format,
        new_swapchain_data(device, factory, desc).buffer_count == desc.buffer_count,
        new_swapchain_data(device, factory, desc).window == desc.output_window,
        new_swapchain_data(device, factory, desc).device == device,
        new_swapchain_data(device, factory, desc).factory == factory,
        new_swapchain_data(device, factory, desc).present_count == 0,
        new_swapchain_data(device, factory, desc).current_buffer == 0,
{
}

/// The adapter of a new factory: index 0, vendor 0x10DE, device 0x2484, 8 GiB
/// of video memory, named "bare-metal OS Vulkan Adapter".
pub proof fn lemma_default_adapter_values(d: DxgiAdapterData)
    requires
        is_default_adapter(d),
    ensures
        d.index == 0,
        d.vendor_id == 0x10DE,
        d.device_id == 0x2484,
        d.dedicated_video_memory == 8589934592,
        d.description@ == "bare-metal OS Vulkan Adapter"@,
{
}

/// An adapter description holds the first units of the name, at most 127
/// of them, then zeros up to 128 units.
pub proof fn lemma_description_units_values(units: Seq<u16>, i: int)
    requires
        0 <= i < 128,
    ensures
        description_units(units).len() == 128,
        i < units.len() && i < 127 ==> description_units(units)[i] == units[i],
        i >= units.len() || i >= 127 ==> description_units(units)[i] == 0,
{
}

/// A description names the adapter's ids and memory, reports 512 MiB of
/// shared memory, LUID 1 and zero sub-system and revision.
pub proof fn lemma_describes_values(desc: DxgiAdapterDesc, d: DxgiAdapterData)
    requires
        describes(desc, d),
    ensures
        desc.vendor_id == d.vendor_id,
        desc.device_id == d.device_id,
        desc.dedicated_video_memory == d.dedicated_video_memory,
        desc.shared_system_memory == 536870912,
        desc.dedicated_system_memory == 0,
        desc.sub_sys_id == 0 && desc.revision == 0,
        desc.adapter_luid_low == 1 && desc.adapter_luid_high == 0,
        forall|i: int| 0 <= i < 128 ==> #[trigger] desc.description@[i]
            == (if i < utf16_encode(d.description@).len() && i < 127 { utf16_encode(d.description@)[i] } else { 0u16 }),
{
}

/// A character below U+10000 is one UTF-16 unit, its code point; one above
/// is a surrogate pair, high then low, which decodes back to it.
pub proof fn lemma_utf16_of_char_values(c: char)
    ensures
        (c as u32) < 0x10000 ==> utf16_of_char(c) == seq![(c as u32) as u16],
        0x10000 <= (c as u32) <= 0x10FFFF ==> {
            let u = utf16_of_char(c);
            &&& u.len() == 2
            &&& 0xD800 <= u[0] < 0xDC00
            &&& 0xDC00 <= u[1] < 0xE000
            &&& (u[0] - 0xD800) * 0x400 + (u[1] - 0xDC00) + 0x10000 == c as u32
        },
{
    let v = c as u32;
    if 0x10000 <= v <= 0x10FFFF {
        let w = (v - 0x10000) as int;
        assert(w == (w / 0x400) * 0x400 + w % 0x400);
        assert(w / 0x400 < 0x400);
    }
}

/// The heap after `k` presents on `sc`.
pub open spec fn after_presents(s: HeapView, sc: ComPtr, k: nat) -> HeapView
    decreases k,
{
    if k == 0 {
        s
    } else {
        after_present(after_presents(s, sc, (k - 1) as nat), sc)
    }
}

/// A new swap chain (as `create_swap_chain` makes it: no frame presented,
/// back buffer 0) after `k` presents: it has presented `k` frames, its back
/// buffer index is `k % buffer_count` (0 where the count is 0), so always in
/// range, and each of the presents was allowed.
pub proof fn lemma_presents_cycle_back_buffers(s: HeapView, sc: ComPtr, k: nat)
    requires
        is_live(s, sc),
        swapchain_data(s, sc) is Some,
        swapchain_data(s, sc)->0.present_count == 0,
        swapchain_data(s, sc)->0.current_buffer == 0,
        k <= u64::MAX,
    ensures
        is_live(after_presents(s, sc, k), sc),
        swapchain_data(after_presents(s, sc, k), sc) is Some,
        swapchain_data(after_presents(s, sc, k), sc)->0.present_count == k,
        swapchain_data(after_presents(s, sc, k), sc)->0.current_buffer
            == k % (cycle_length(swapchain_data(s, sc)->0.buffer_count) as nat),
        swapchain_data(after_presents(s, sc, k), sc)->0.current_buffer
            < cycle_length(swapchain_data(s, sc)->0.buffer_count),
        swapchain_data(after_presents(s, sc, k), sc)->0.buffer_count == swapchain_data(s, sc)->0.buffer_count,
        k < u64::MAX ==> can_present(after_presents(s, sc, k), sc),
        swapchain_data(s, sc)->0.buffer_count >= 1 ==> swapchain_data(after_presents(s, sc, k), sc)->0.current_buffer
            == k % (swapchain_data(s, sc)->0.buffer_count as nat),
        swapchain_data(s, sc)->0.buffer_count == 0 ==> swapchain_data(after_presents(s, sc, k), sc)->0.current_buffer == 0,
    decreases k,
{
    let c = cycle_length(swapchain_data(s, sc)->0.buffer_count);
    if k > 0 {
        let km = (k - 1) as nat;
        lemma_presents_cycle_back_buffers(s, sc, km);
        let t = after_presents(s, sc, km);
        let e = swapchain_data(t, sc)->0;
        assert(swapchain_data(after_present(t, sc), sc) == Some(presented(e)));
        vstd::arithmetic::div_mod::lemma_add_mod_noop_right(1, km as int, c as int);
        assert(1 + km == k);
    }
}

} // verus!
