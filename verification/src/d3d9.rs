//! Direct3D 9.
//!
//! IDirect3D9 and IDirect3DDevice9 as COM objects in a `ComHeap`. Draw calls
//! and presents are counted on the device; the resources created here are
//! plain COM objects.

use vstd::prelude::*;
use crate::com::{
    ComHeap, HeapView, ComPtr, Guid, HResult, IUnknownVtbl, ImplData, guid_of, impl_data_of, next_ptr,
    null_or_live, with_impl_data, with_new_object, create_com_object, create_com_object_with_data,
    get_impl_data, spec_default_iunknown_vtbl, default_iunknown_vtbl, S_OK, E_INVALIDARG,
    D3DERR_INVALIDCALL, TYPE_D3D9, TYPE_D3D9_DEVICE, TYPE_D3D9_VERTEX_BUFFER, TYPE_D3D9_TEXTURE,
};

verus! {

// =============================================================================
// D3D9 GUIDs
// =============================================================================

pub open spec fn spec_iid_idirect3d9() -> Guid {
    guid_of(0x81BDCBCA, 0x64D4, 0x426D, [0xAE, 0x8D, 0xAD, 0x01, 0x47, 0xF4, 0x27, 0x5C])
}

/// IID_IDirect3D9: {81BDCBCA-64D4-426D-AE8D-AD0147F4275C}
#[verifier::when_used_as_spec(spec_iid_idirect3d9)]
pub fn iid_idirect3d9() -> (g: Guid)
    ensures
        g == spec_iid_idirect3d9(),
{
    Guid { data1: 0x81BDCBCA, data2: 0x64D4, data3: 0x426D, data4: [0xAE, 0x8D, 0xAD, 0x01, 0x47, 0xF4, 0x27, 0x5C] }
}

pub open spec fn spec_iid_idirect3ddevice9() -> Guid {
    guid_of(0xD0223B96, 0xBF7A, 0x43FD, [0x92, 0xBD, 0xA4, 0x3B, 0x0D, 0x82, 0xB9, 0xEB])
}

/// IID_IDirect3DDevice9: {D0223B96-BF7A-43FD-92BD-A43B0D82B9EB}
#[verifier::when_used_as_spec(spec_iid_idirect3ddevice9)]
pub fn iid_idirect3ddevice9() -> (g: Guid)
    ensures
        g == spec_iid_idirect3ddevice9(),
{
    Guid { data1: 0xD0223B96, data2: 0xBF7A, data3: 0x43FD, data4: [0x92, 0xBD, 0xA4, 0x3B, 0x0D, 0x82, 0xB9, 0xEB] }
}

// =============================================================================
// D3D9 types
// =============================================================================

/// D3DPRESENT_PARAMETERS.
pub struct D3dPresentParameters {
    pub back_buffer_width: u32,
    pub back_buffer_height: u32,
    /// D3DFORMAT
    pub back_buffer_format: u32,
    pub back_buffer_count: u32,
    pub multi_sample_type: u32,
    pub multi_sample_quality: u32,
    /// D3DSWAPEFFECT
    pub swap_effect: u32,
    /// HWND
    pub device_window: u64,
    /// BOOL
    pub windowed: i32,
    pub enable_auto_depth_stencil: i32,
    pub auto_depth_stencil_format: u32,
    pub flags: u32,
    pub full_screen_refresh_rate: u32,
    pub presentation_interval: u32,
}

/// D3D primitive types.
#[derive(Clone, Copy, Debug, PartialEq, Eq, Structural)]
pub enum D3dPrimitiveType {
    PointList,
    LineList,
    LineStrip,
    TriangleList,
    TriangleStrip,
    TriangleFan,
}

impl D3dPrimitiveType {
    /// The D3DPRIMITIVETYPE value.
    pub fn value(&self) -> (v: u32)
        ensures
            v == match *self {
                D3dPrimitiveType::PointList => 1u32,
                D3dPrimitiveType::LineList => 2,
                D3dPrimitiveType::LineStrip => 3,
                D3dPrimitiveType::TriangleList => 4,
                D3dPrimitiveType::TriangleStrip => 5,
                D3dPrimitiveType::TriangleFan => 6,
            },
    {
        match *self {
            D3dPrimitiveType::PointList => 1,
            D3dPrimitiveType::LineList => 2,
            D3dPrimitiveType::LineStrip => 3,
            D3dPrimitiveType::TriangleList => 4,
            D3dPrimitiveType::TriangleStrip => 5,
            D3dPrimitiveType::TriangleFan => 6,
        }
    }
}

/// D3DPOOL.
#[derive(Clone, Copy, Debug, PartialEq, Eq, Structural)]
pub enum D3dPool {
    Default,
    Managed,
    SystemMem,
    Scratch,
}

impl D3dPool {
    /// The D3DPOOL value.
    pub fn value(&self) -> (v: u32)
        ensures
            v == match *self {
                D3dPool::Default => 0u32,
                D3dPool::Managed => 1,
                D3dPool::SystemMem => 2,
                D3dPool::Scratch => 3,
            },
    {
        match *self {
            D3dPool::Default => 0,
            D3dPool::Managed => 1,
            D3dPool::SystemMem => 2,
            D3dPool::Scratch => 3,
        }
    }
}

/// Internal state for IDirect3D9.
#[derive(Clone, Copy, Debug)]
pub struct D3d9Data {
    pub sdk_version: u32,
    pub adapter_count: u32,
}

/// Internal state for IDirect3DDevice9.
#[derive(Clone, Copy, Debug)]
pub struct D3d9DeviceData {
    pub adapter: u32,
    pub device_type: u32,
    pub focus_window: u64,
    pub behavior_flags: u32,
    pub back_buffer_width: u32,
    pub back_buffer_height: u32,
    /// Current render target (Vulkan image handle).
    pub render_target: u64,
    /// Current vertex buffer.
    pub vertex_buffer: u64,
    /// Current texture stage bindings (up to 8 stages).
    pub textures: [u64; 8],
    /// Draw call counter for profiling.
    pub draw_calls: u64,
    /// Frame counter.
    pub frame_count: u64,
}

// =============================================================================
// Interface tables
// =============================================================================

pub open spec fn spec_d3d9_vtbl() -> IUnknownVtbl {
    IUnknownVtbl { interface: Some(spec_iid_idirect3d9()) }
}

/// The IDirect3D9 table: QueryInterface grants IUnknown and IDirect3D9.
#[verifier::when_used_as_spec(spec_d3d9_vtbl)]
pub fn d3d9_vtbl() -> (v: IUnknownVtbl)
    ensures
        v == spec_d3d9_vtbl(),
{
    IUnknownVtbl { interface: Some(iid_idirect3d9()) }
}

pub open spec fn spec_d3d9_device_vtbl() -> IUnknownVtbl {
    IUnknownVtbl { interface: Some(spec_iid_idirect3ddevice9()) }
}

/// The IDirect3DDevice9 table: QueryInterface grants IUnknown and
/// IDirect3DDevice9.
#[verifier::when_used_as_spec(spec_d3d9_device_vtbl)]
pub fn d3d9_device_vtbl() -> (v: IUnknownVtbl)
    ensures
        v == spec_d3d9_device_vtbl(),
{
    IUnknownVtbl { interface: Some(iid_idirect3ddevice9()) }
}

// =============================================================================
// Specifications
// =============================================================================

/// The state of a newly created device.
pub open spec fn new_device_data(
    adapter: u32,
    device_type: u32,
    focus_window: u64,
    behavior_flags: u32,
    width: u32,
    height: u32,
) -> D3d9DeviceData {
    D3d9DeviceData {
        adapter,
        device_type,
        focus_window,
        behavior_flags,
        back_buffer_width: width,
        back_buffer_height: height,
        render_target: 0,
        vertex_buffer: 0,
        textures: [0u64, 0, 0, 0, 0, 0, 0, 0],
        draw_calls: 0,
        frame_count: 0,
    }
}

/// The device data of `p`, where `p` holds some.
pub open spec fn device_data(s: HeapView, p: ComPtr) -> Option<D3d9DeviceData> {
    match impl_data_of(s, p) {
        Some(ImplData::D3d9Device(d)) => Some(d),
        _ => None,
    }
}

/// Present may run on `p`: the frame counter has room for one more frame.
pub open spec fn can_present(s: HeapView, p: ComPtr) -> bool {
    device_data(s, p) is Some ==> device_data(s, p)->0.frame_count < u64::MAX
}

/// The heap after a present on `device`: one more frame, draw calls reset.
pub open spec fn after_present(s: HeapView, device: ComPtr) -> HeapView {
    match device_data(s, device) {
        Some(d) => with_impl_data(s, device, ImplData::D3d9Device(
            D3d9DeviceData { frame_count: (d.frame_count + 1) as u64, draw_calls: 0, ..d },
        )),
        None => s,
    }
}

/// DrawPrimitive may run on `p`: the draw counter has room for one more call.
pub open spec fn can_draw(s: HeapView, p: ComPtr) -> bool {
    device_data(s, p) is Some ==> device_data(s, p)->0.draw_calls < u64::MAX
}

/// The heap after a draw call on `device`: one more draw call.
pub open spec fn after_draw(s: HeapView, device: ComPtr) -> HeapView {
    match device_data(s, device) {
        Some(d) => with_impl_data(s, device, ImplData::D3d9Device(
            D3d9DeviceData { draw_calls: (d.draw_calls + 1) as u64, ..d },
        )),
        None => s,
    }
}

/// The heap after binding `handle` to texture `stage` of `device`; stages
/// past the last are ignored.
pub open spec fn after_set_texture(s: HeapView, device: ComPtr, stage: u32, handle: u64) -> HeapView {
    match device_data(s, device) {
        Some(d) => if stage < 8 {
            with_impl_data(s, device, ImplData::D3d9Device(
                D3d9DeviceData { textures: vstd::array::spec_array_update(d.textures, stage as int, handle), ..d },
            ))
        } else {
            s
        },
        None => s,
    }
}

// =============================================================================
// Direct3D 9 API entry points
// =============================================================================

/// Direct3DCreate9 — create an IDirect3D9 object with one adapter.
pub fn direct3d_create9(heap: &mut ComHeap, sdk_version: u32) -> (p: ComPtr)
    requires
        old(heap).wf(),
    ensures
        final(heap).wf(),
        p == next_ptr(old(heap)@),
        final(heap)@ == with_new_object(old(heap)@, spec_d3d9_vtbl(), TYPE_D3D9,
            Some(ImplData::D3d9(D3d9Data { sdk_version, adapter_count: 1 }))),
{
    let data = D3d9Data { sdk_version, adapter_count: 1 };
    create_com_object_with_data(heap, TYPE_D3D9, d3d9_vtbl(), ImplData::D3d9(data))
}

/// IDirect3D9::CreateDevice — create a D3D9 device whose back buffer has
/// the size of the present parameters.
pub fn create_device(
    heap: &mut ComHeap,
    d3d9: ComPtr,
    adapter: u32,
    device_type: u32,
    focus_window: u64,
    behavior_flags: u32,
    present_params: Option<&D3dPresentParameters>,
    device_out: Option<&mut ComPtr>,
) -> (r: HResult)
    requires
        old(heap).wf(),
    ensures
        final(heap).wf(),
        r == (if d3d9.addr == 0 || present_params is None || device_out is None { E_INVALIDARG } else { S_OK }),
        r != S_OK ==> final(heap)@ == old(heap)@,
        r != S_OK && device_out is Some ==> *final(device_out.unwrap()) == *old(device_out.unwrap()),
        r == S_OK ==> final(heap)@ == with_new_object(old(heap)@, spec_d3d9_device_vtbl(), TYPE_D3D9_DEVICE,
            Some(ImplData::D3d9Device(new_device_data(adapter, device_type, focus_window, behavior_flags,
                present_params.unwrap().back_buffer_width, present_params.unwrap().back_buffer_height)))),
        r == S_OK ==> *final(device_out.unwrap()) == next_ptr(old(heap)@),
{
    if d3d9.is_null() || present_params.is_none() || device_out.is_none() {
        return E_INVALIDARG;
    }
    let params = present_params.unwrap();
    let data = D3d9DeviceData {
        adapter,
        device_type,
        focus_window,
        behavior_flags,
        back_buffer_width: params.back_buffer_width,
        back_buffer_height: params.back_buffer_height,
        render_target: 0,
        vertex_buffer: 0,
        textures: [0u64, 0, 0, 0, 0, 0, 0, 0],
        draw_calls: 0,
        frame_count: 0,
    };
    let device = create_com_object_with_data(heap, TYPE_D3D9_DEVICE, d3d9_device_vtbl(), ImplData::D3d9Device(data));
    match device_out {
        Some(out) => { *out = device; },
        None => {},
    }
    S_OK
}

fn device_data_of(heap: &ComHeap, device: ComPtr) -> (d: Option<D3d9DeviceData>)
    requires
        null_or_live(heap@, device),
    ensures
        d == device_data(heap@, device),
{
    match get_impl_data(heap, device) {
        Some(ImplData::D3d9Device(d)) => Some(*d),
        _ => None,
    }
}

/// IDirect3DDevice9::Present — count one more frame and start counting the
/// draw calls of the next one.
pub fn present(
    heap: &mut ComHeap,
    device: ComPtr,
    source_rect: u64,
    dest_rect: u64,
    dest_window_override: u64,
    dirty_region: u64,
) -> (r: HResult)
    requires
        old(heap).wf(),
        null_or_live(old(heap)@, device),
        can_present(old(heap)@, device),
    ensures
        final(heap).wf(),
        r == (if device.addr == 0 { D3DERR_INVALIDCALL } else { S_OK }),
        final(heap)@ == (if device.addr == 0 { old(heap)@ } else { after_present(old(heap)@, device) }),
{
    if device.is_null() {
        return D3DERR_INVALIDCALL;
    }
    match device_data_of(heap, device) {
        Some(d) => {
            let nd = D3d9DeviceData { frame_count: d.frame_count + 1, draw_calls: 0, ..d };
            heap.set_impl_data(device, ImplData::D3d9Device(nd));
        },
        None => {},
    }
    S_OK
}

/// IDirect3DDevice9::DrawPrimitive — count one more draw call.
pub fn draw_primitive(heap: &mut ComHeap, device: ComPtr, primitive_type: u32, start_vertex: u32, primitive_count: u32) -> (r: HResult)
    requires
        old(heap).wf(),
        null_or_live(old(heap)@, device),
        can_draw(old(heap)@, device),
    ensures
        final(heap).wf(),
        r == (if device.addr == 0 { D3DERR_INVALIDCALL } else { S_OK }),
        final(heap)@ == (if device.addr == 0 { old(heap)@ } else { after_draw(old(heap)@, device) }),
{
    if device.is_null() {
        return D3DERR_INVALIDCALL;
    }
    match device_data_of(heap, device) {
        Some(d) => {
            let nd = D3d9DeviceData { draw_calls: d.draw_calls + 1, ..d };
            heap.set_impl_data(device, ImplData::D3d9Device(nd));
        },
        None => {},
    }
    S_OK
}

/// The handle a texture pointer is bound as: 0 for null, else its address.
pub open spec fn texture_handle(texture: ComPtr) -> u64 {
    texture.addr as u64
}

/// IDirect3DDevice9::SetTexture — bind a texture to a stage (stages 0 to 7;
/// others are ignored).
pub fn set_texture(heap: &mut ComHeap, device: ComPtr, stage: u32, texture: ComPtr) -> (r: HResult)
    requires
        old(heap).wf(),
        null_or_live(old(heap)@, device),
    ensures
        final(heap).wf(),
        r == (if device.addr == 0 { D3DERR_INVALIDCALL } else { S_OK }),
        final(heap)@ == (if device.addr == 0 { old(heap)@ } else {
            after_set_texture(old(heap)@, device, stage, texture_handle(texture))
        }),
{
    if device.is_null() {
        return D3DERR_INVALIDCALL;
    }
    let tex_handle: u64 = if texture.is_null() { 0 } else { texture.addr as u64 };
    match device_data_of(heap, device) {
        Some(d) => {
            if stage < 8 {
                let mut textures = d.textures;
                textures[stage as usize] = tex_handle;
                let nd = D3d9DeviceData { textures, ..d };
                heap.set_impl_data(device, ImplData::D3d9Device(nd));
            }
        },
        None => {},
    }
    S_OK
}

/// IDirect3DDevice9::CreateVertexBuffer — a plain COM object tagged as a
/// vertex buffer.
pub fn create_vertex_buffer(
    heap: &mut ComHeap,
    device: ComPtr,
    length: u32,
    usage: u32,
    fvf: u32,
    pool: u32,
    buffer_out: Option<&mut ComPtr>,
    shared_handle: u64,
) -> (r: HResult)
    requires
        old(heap).wf(),
    ensures
        final(heap).wf(),
        r == (if device.addr == 0 || buffer_out is None { E_INVALIDARG } else { S_OK }),
        r != S_OK ==> final(heap)@ == old(heap)@,
        r != S_OK && buffer_out is Some ==> *final(buffer_out.unwrap()) == *old(buffer_out.unwrap()),
        r == S_OK ==> final(heap)@ == with_new_object(old(heap)@, spec_default_iunknown_vtbl(),
            TYPE_D3D9_VERTEX_BUFFER, None),
        r == S_OK ==> *final(buffer_out.unwrap()) == next_ptr(old(heap)@),
{
    if device.is_null() || buffer_out.is_none() {
        return E_INVALIDARG;
    }
    let vb = create_com_object(heap, TYPE_D3D9_VERTEX_BUFFER, default_iunknown_vtbl());
    match buffer_out {
        Some(out) => { *out = vb; },
        None => {},
    }
    S_OK
}

/// IDirect3DDevice9::CreateTexture — a plain COM object tagged as a texture.
pub fn create_texture(
    heap: &mut ComHeap,
    device: ComPtr,
    width: u32,
    height: u32,
    levels: u32,
    usage: u32,
    format: u32,
    pool: u32,
    texture_out: Option<&mut ComPtr>,
    shared_handle: u64,
) -> (r: HResult)
    requires
        old(heap).wf(),
    ensures
        final(heap).wf(),
        r == (if device.addr == 0 || texture_out is None { E_INVALIDARG } else { S_OK }),
        r != S_OK ==> final(heap)@ == old(heap)@,
        r != S_OK && texture_out is Some ==> *final(texture_out.unwrap()) == *old(texture_out.unwrap()),
        r == S_OK ==> final(heap)@ == with_new_object(old(heap)@, spec_default_iunknown_vtbl(),
            TYPE_D3D9_TEXTURE, None),
        r == S_OK ==> *final(texture_out.unwrap()) == next_ptr(old(heap)@),
{
    if device.is_null() || texture_out.is_none() {
        return E_INVALIDARG;
    }
    let tex = create_com_object(heap, TYPE_D3D9_TEXTURE, default_iunknown_vtbl());
    match texture_out {
        Some(out) => { *out = tex; },
        None => {},
    }
    S_OK
}

/// The adapter count of an IDirect3D9 object; 0 for null or another object.
pub open spec fn adapter_count_of(s: HeapView, d3d9: ComPtr) -> u32 {
    match impl_data_of(s, d3d9) {
        Some(ImplData::D3d9(d)) => d.adapter_count,
        _ => 0,
    }
}

/// Get the D3D9 adapter count.
pub fn get_adapter_count(heap: &ComHeap, d3d9: ComPtr) -> (n: u32)
    requires
        null_or_live(heap@, d3d9),
    ensures
        n == adapter_count_of(heap@, d3d9),
{
    if d3d9.is_null() {
        return 0;
    }
    match get_impl_data(heap, d3d9) {
        Some(ImplData::D3d9(d)) => d.adapter_count,
        _ => 0,
    }
}

// =============================================================================
// Laws
// =============================================================================

/// Present counts exactly one more frame and restarts the draw count of the
/// frame; nothing else of the device changes, and an object that is no
/// device is left alone.
pub proof fn lemma_present_counts_one_frame(s: HeapView, device: ComPtr)
    requires
        crate::com::is_live(s, device),
        can_present(s, device),
    ensures
        device_data(s, device) is Some ==> {
            let d = device_data(s, device)->0;
            let e = device_data(after_present(s, device), device)->0;
            &&& device_data(after_present(s, device), device) is Some
            &&& e.frame_count == d.frame_count + 1
            &&& e.draw_calls == 0
            &&& e.adapter == d.adapter && e.device_type == d.device_type
            &&& e.focus_window == d.focus_window && e.behavior_flags == d.behavior_flags
            &&& e.back_buffer_width == d.back_buffer_width && e.back_buffer_height == d.back_buffer_height
            &&& e.render_target == d.render_target && e.vertex_buffer == d.vertex_buffer
            &&& e.textures == d.textures
        },
        device_data(s, device) is None ==> after_present(s, device) == s,
        after_present(s, device).len() == s.len(),
{
}

/// A draw counts exactly one more draw call; nothing else of the device
/// changes.
pub proof fn lemma_draw_counts_one_call(s: HeapView, device: ComPtr)
    requires
        crate::com::is_live(s, device),
        can_draw(s, device),
    ensures
        device_data(s, device) is Some ==> {
            let d = device_data(s, device)->0;
            let e = device_data(after_draw(s, device), device)->0;
            &&& device_data(after_draw(s, device), device) is Some
            &&& e.draw_calls == d.draw_calls + 1
            &&& e.frame_count == d.frame_count
            &&& e.adapter == d.adapter && e.device_type == d.device_type
            &&& e.focus_window == d.focus_window && e.behavior_flags == d.behavior_flags
            &&& e.back_buffer_width == d.back_buffer_width && e.back_buffer_height == d.back_buffer_height
            &&& e.textures == d.textures
        },
        device_data(s, device) is None ==> after_draw(s, device) == s,
{
}

/// `n` presents on a device, each raising the frame count by one, leave it
/// at the count it had plus `n`.
pub proof fn lemma_presents_count_frames(s: HeapView, device: ComPtr, n: nat)
    requires
        crate::com::is_live(s, device),
        device_data(s, device) is Some,
        device_data(s, device)->0.frame_count + n <= u64::MAX,
    ensures
        device_data(presents(s, device, n), device) is Some,
        device_data(presents(s, device, n), device)->0.frame_count == device_data(s, device)->0.frame_count + n,
        crate::com::is_live(presents(s, device, n), device),
    decreases n,
{
    if n > 0 {
        lemma_presents_count_frames(s, device, (n - 1) as nat);
        lemma_present_counts_one_frame(presents(s, device, (n - 1) as nat), device);
    }
}

/// The heap after `n` presents on `device`.
pub open spec fn presents(s: HeapView, device: ComPtr, n: nat) -> HeapView
    decreases n,
{
    if n == 0 {
        s
    } else {
        after_present(presents(s, device, (n - 1) as nat), device)
    }
}

/// A new device records the adapter, type, window, flags and back-buffer
/// size it was created with, and starts with nothing bound and nothing
/// counted.
pub proof fn lemma_new_device_records_arguments(
    adapter: u32,
    device_type: u32,
    focus_window: u64,
    behavior_flags: u32,
    width: u32,
    height: u32,
)
    ensures
        ({
            let d = new_device_data(adapter, device_type, focus_window, behavior_flags, width, height);
            &&& d.adapter == adapter && d.device_type == device_type
            &&& d.focus_window == focus_window && d.behavior_flags == behavior_flags
            &&& d.back_buffer_width == width && d.back_buffer_height == height
            &&& d.render_target == 0 && d.vertex_buffer == 0
            &&& d.draw_calls == 0 && d.frame_count == 0
            &&& forall|i: int| 0 <= i < 8 ==> d.textures[i] == 0
        }),
{
}

/// SetTexture binds the texture's address to the stage for stages 0 to 7
/// and leaves every other stage and field; other stages are ignored.
pub proof fn lemma_set_texture_binds_stage(s: HeapView, device: ComPtr, stage: u32, texture: ComPtr)
    requires
        crate::com::is_live(s, device),
        device_data(s, device) is Some,
    ensures
        texture_handle(texture) == texture.addr,
        stage < 8 ==> {
            let d = device_data(s, device)->0;
            let e = device_data(after_set_texture(s, device, stage, texture_handle(texture)), device)->0;
            &&& device_data(after_set_texture(s, device, stage, texture_handle(texture)), device) is Some
            &&& e.textures[stage as int] == texture.addr
            &&& forall|i: int| 0 <= i < 8 && i != stage ==> e.textures[i] == d.textures[i]
            &&& e.draw_calls == d.draw_calls && e.frame_count == d.frame_count
        },
        stage >= 8 ==> after_set_texture(s, device, stage, texture_handle(texture)) == s,
{
}

/// A present forgets the draw calls of the frame it ends: drawing and then
/// presenting leaves the device as presenting alone would.
pub proof fn lemma_present_forgets_draws(s: HeapView, device: ComPtr)
    requires
        crate::com::is_live(s, device),
    ensures
        after_present(after_draw(s, device), device) == after_present(s, device),
{
    match device_data(s, device) {
        Some(d) => {
            let t = after_draw(s, device);
            assert(device_data(t, device) == Some(D3d9DeviceData { draw_calls: (d.draw_calls + 1) as u64, ..d }));
            assert(after_present(t, device) =~= after_present(s, device));
        },
        None => {},
    }
}

/// Binding a texture to a stage replaces what an earlier binding of that
/// stage left: the later binding wins.
pub proof fn lemma_set_texture_last_wins(s: HeapView, device: ComPtr, stage: u32, h1: u64, h2: u64)
    requires
        crate::com::is_live(s, device),
    ensures
        after_set_texture(after_set_texture(s, device, stage, h1), device, stage, h2)
            == after_set_texture(s, device, stage, h2),
{
    match device_data(s, device) {
        Some(d) => {
            if stage < 8 {
                let t = after_set_texture(s, device, stage, h1);
                let t1 = vstd::array::spec_array_update(d.textures, stage as int, h1);
                assert(device_data(t, device) == Some(D3d9DeviceData { textures: t1, ..d }));
                let a = vstd::array::spec_array_update(t1, stage as int, h2);
                let b = vstd::array::spec_array_update(d.textures, stage as int, h2);
                assert(a@ =~= b@);
                assert(a =~= b);
                assert(after_set_texture(t, device, stage, h2) =~= after_set_texture(s, device, stage, h2));
            }
        },
        None => {},
    }
}

} // verus!
