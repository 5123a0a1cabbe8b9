//! Direct3D 11.
//!
//! ID3D11Device and ID3D11DeviceContext as COM objects in a `ComHeap`. The
//! device counts the buffers and textures it creates; the context counts draw
//! calls and records the bound shaders.

use vstd::prelude::*;
use crate::com::{
    ComHeap, HeapView, ComPtr, Guid, HResult, IUnknownVtbl, ImplData, guid_of, impl_data_of, next_ptr,
    null_or_live, with_impl_data, with_new_object, create_com_object, create_com_object_with_data,
    get_impl_data, spec_default_iunknown_vtbl, default_iunknown_vtbl, S_OK, E_INVALIDARG,
    TYPE_D3D11_DEVICE, TYPE_D3D11_CONTEXT, TYPE_D3D11_BUFFER, TYPE_D3D11_TEXTURE2D,
};

verus! {

// =============================================================================
// D3D11 GUIDs
// =============================================================================

pub open spec fn spec_iid_id3d11device() -> Guid {
    guid_of(0xDB6F6DDB, 0xAC77, 0x4E88, [0x82, 0x53, 0x81, 0x9D, 0xF9, 0xBB, 0xF1, 0x40])
}

/// IID_ID3D11Device: {DB6F6DDB-AC77-4E88-8253-819DF9BBF140}
#[verifier::when_used_as_spec(spec_iid_id3d11device)]
pub fn iid_id3d11device() -> (g: Guid)
    ensures
        g == spec_iid_id3d11device(),
{
    Guid { data1: 0xDB6F6DDB, data2: 0xAC77, data3: 0x4E88, data4: [0x82, 0x53, 0x81, 0x9D, 0xF9, 0xBB, 0xF1, 0x40] }
}

pub open spec fn spec_iid_id3d11devicecontext() -> Guid {
    guid_of(0xC0BFA96C, 0xE089, 0x44FB, [0x8E, 0xAF, 0x26, 0xF8, 0x79, 0x61, 0x90, 0xDA])
}

/// IID_ID3D11DeviceContext: {C0BFA96C-E089-44FB-8EAF-26F8796190DA}
#[verifier::when_used_as_spec(spec_iid_id3d11devicecontext)]
pub fn iid_id3d11devicecontext() -> (g: Guid)
    ensures
        g == spec_iid_id3d11devicecontext(),
{
    Guid { data1: 0xC0BFA96C, data2: 0xE089, data3: 0x44FB, data4: [0x8E, 0xAF, 0x26, 0xF8, 0x79, 0x61, 0x90, 0xDA] }
}

// =============================================================================
// D3D11 types
// =============================================================================

/// D3D11_BUFFER_DESC.
pub struct D3d11BufferDesc {
    pub byte_width: u32,
    /// D3D11_USAGE
    pub usage: u32,
    /// D3D11_BIND_FLAG
    pub bind_flags: u32,
    pub cpu_access_flags: u32,
    pub misc_flags: u32,
    pub structure_byte_stride: u32,
}

/// D3D11_TEXTURE2D_DESC.
pub struct D3d11Texture2dDesc {
    pub width: u32,
    pub height: u32,
    pub mip_levels: u32,
    pub array_size: u32,
    /// DXGI_FORMAT
    pub format: u32,
    pub sample_count: u32,
    pub sample_quality: u32,
    pub usage: u32,
    pub bind_flags: u32,
    pub cpu_access_flags: u32,
    pub misc_flags: u32,
}

/// D3D11_SUBRESOURCE_DATA.
pub struct D3d11SubresourceData {
    /// Address of the initial contents.
    pub sys_mem: u64,
    pub sys_mem_pitch: u32,
    pub sys_mem_slice_pitch: u32,
}

/// D3D11 bind flags.
pub const D3D11_BIND_VERTEX_BUFFER: u32 = 0x1;
pub const D3D11_BIND_INDEX_BUFFER: u32 = 0x2;
pub const D3D11_BIND_CONSTANT_BUFFER: u32 = 0x4;
pub const D3D11_BIND_SHADER_RESOURCE: u32 = 0x8;
pub const D3D11_BIND_RENDER_TARGET: u32 = 0x20;
pub const D3D11_BIND_DEPTH_STENCIL: u32 = 0x40;
pub const D3D11_BIND_UNORDERED_ACCESS: u32 = 0x80;

/// D3D feature levels.
#[derive(Clone, Copy, Debug, PartialEq, Eq, Structural)]
pub enum D3dFeatureLevel {
    Level9_1,
    Level9_3,
    Level10_0,
    Level10_1,
    Level11_0,
    Level11_1,
    Level12_0,
    Level12_1,
}

pub open spec fn feature_level_value(l: D3dFeatureLevel) -> u32 {
    match l {
        D3dFeatureLevel::Level9_1 => 0x9100,
        D3dFeatureLevel::Level9_3 => 0x9300,
        D3dFeatureLevel::Level10_0 => 0xa000,
        D3dFeatureLevel::Level10_1 => 0xa100,
        D3dFeatureLevel::Level11_0 => 0xb000,
        D3dFeatureLevel::Level11_1 => 0xb100,
        D3dFeatureLevel::Level12_0 => 0xc000,
        D3dFeatureLevel::Level12_1 => 0xc100,
    }
}

impl D3dFeatureLevel {
    /// The D3D_FEATURE_LEVEL value.
    pub fn value(&self) -> (v: u32)
        ensures
            v == feature_level_value(*self),
    {
        match *self {
            D3dFeatureLevel::Level9_1 => 0x9100,
            D3dFeatureLevel::Level9_3 => 0x9300,
            D3dFeatureLevel::Level10_0 => 0xa000,
            D3dFeatureLevel::Level10_1 => 0xa100,
            D3dFeatureLevel::Level11_0 => 0xb000,
            D3dFeatureLevel::Level11_1 => 0xb100,
            D3dFeatureLevel::Level12_0 => 0xc000,
            D3dFeatureLevel::Level12_1 => 0xc100,
        }
    }
}

/// Internal state for ID3D11Device.
#[derive(Clone, Copy, Debug)]
pub struct D3d11DeviceData {
    pub feature_level: u32,
    /// Immediate context associated with this device.
    pub immediate_context: ComPtr,
    /// Resource counters for debugging.
    pub buffer_count: u32,
    pub texture_count: u32,
}

/// Internal state for ID3D11DeviceContext.
#[derive(Clone, Copy, Debug)]
pub struct D3d11ContextData {
    /// Parent device.
    pub device: ComPtr,
    /// Draw call counter.
    pub draw_calls: u64,
    /// Bound vertex shader.
    pub vs_shader: u64,
    /// Bound pixel shader.
    pub ps_shader: u64,
    /// Bound vertex buffers (up to 16 slots).
    pub vertex_buffers: [u64; 16],
    /// Bound index buffer.
    pub index_buffer: u64,
    /// Bound render targets (up to 8).
    pub render_targets: [u64; 8],
    /// Bound depth-stencil view.
    pub depth_stencil: u64,
}

// =============================================================================
// Interface tables
// =============================================================================

pub open spec fn spec_d3d11_device_vtbl() -> IUnknownVtbl {
    IUnknownVtbl { interface: Some(spec_iid_id3d11device()) }
}

/// The ID3D11Device table: QueryInterface grants IUnknown and ID3D11Device.
#[verifier::when_used_as_spec(spec_d3d11_device_vtbl)]
pub fn d3d11_device_vtbl() -> (v: IUnknownVtbl)
    ensures
        v == spec_d3d11_device_vtbl(),
{
    IUnknownVtbl { interface: Some(iid_id3d11device()) }
}

pub open spec fn spec_d3d11_context_vtbl() -> IUnknownVtbl {
    IUnknownVtbl { interface: Some(spec_iid_id3d11devicecontext()) }
}

/// The ID3D11DeviceContext table: QueryInterface grants IUnknown and
/// ID3D11DeviceContext.
#[verifier::when_used_as_spec(spec_d3d11_context_vtbl)]
pub fn d3d11_context_vtbl() -> (v: IUnknownVtbl)
    ensures
        v == spec_d3d11_context_vtbl(),
{
    IUnknownVtbl { interface: Some(iid_id3d11devicecontext()) }
}

// =============================================================================
// Specifications
// =============================================================================

/// The feature level a new device gets: the first one asked for, or 11.1
/// where none is given.
pub open spec fn chosen_feature_level(feature_levels: Option<&[u32]>, feature_level_count: u32) -> u32 {
    if feature_levels is Some && feature_level_count > 0 {
        feature_levels->0@[0]
    } else {
        feature_level_value(D3dFeatureLevel::Level11_1)
    }
}

/// The state of a new immediate context of `device`.
pub open spec fn new_context_data(device: ComPtr) -> D3d11ContextData {
    D3d11ContextData {
        device,
        draw_calls: 0,
        vs_shader: 0,
        ps_shader: 0,
        vertex_buffers: [0u64, 0, 0, 0, 0, 0, 0, 0, 0, 0, 0, 0, 0, 0, 0, 0],
        index_buffer: 0,
        render_targets: [0u64, 0, 0, 0, 0, 0, 0, 0],
        depth_stencil: 0,
    }
}

/// The heap after D3D11CreateDevice: the immediate context, then the device.
pub open spec fn after_create_device(s: HeapView, feature_level: u32) -> HeapView {
    let ctx = next_ptr(s);
    let device = ComPtr { addr: (ctx.addr + 1) as usize };
    with_new_object(
        with_new_object(s, spec_d3d11_context_vtbl(), TYPE_D3D11_CONTEXT, Some(ImplData::D3d11Context(new_context_data(device)))),
        spec_d3d11_device_vtbl(),
        TYPE_D3D11_DEVICE,
        Some(ImplData::D3d11Device(D3d11DeviceData { feature_level, immediate_context: ctx, buffer_count: 0, texture_count: 0 })),
    )
}

/// The device data of `p`, where `p` holds some.
pub open spec fn device_data(s: HeapView, p: ComPtr) -> Option<D3d11DeviceData> {
    match impl_data_of(s, p) {
        Some(ImplData::D3d11Device(d)) => Some(d),
        _ => None,
    }
}

/// The context data of `p`, where `p` holds some.
pub open spec fn context_data(s: HeapView, p: ComPtr) -> Option<D3d11ContextData> {
    match impl_data_of(s, p) {
        Some(ImplData::D3d11Context(d)) => Some(d),
        _ => None,
    }
}

/// The heap after CreateBuffer on `device`: the new buffer, and one more
/// buffer counted on the device.
pub open spec fn after_create_buffer(s: HeapView, device: ComPtr) -> HeapView {
    let t = with_new_object(s, spec_default_iunknown_vtbl(), TYPE_D3D11_BUFFER, None);
    match device_data(s, device) {
        Some(d) => with_impl_data(t, device, ImplData::D3d11Device(
            D3d11DeviceData { buffer_count: (d.buffer_count + 1) as u32, ..d },
        )),
        None => t,
    }
}

/// The heap after CreateTexture2D on `device`: the new texture, and one more
/// texture counted on the device.
pub open spec fn after_create_texture2d(s: HeapView, device: ComPtr) -> HeapView {
    let t = with_new_object(s, spec_default_iunknown_vtbl(), TYPE_D3D11_TEXTURE2D, None);
    match device_data(s, device) {
        Some(d) => with_impl_data(t, device, ImplData::D3d11Device(
            D3d11DeviceData { texture_count: (d.texture_count + 1) as u32, ..d },
        )),
        None => t,
    }
}

/// The heap with the context data of `ctx` (if it has any) replaced by `f`'s.
pub open spec fn after_context_update(s: HeapView, ctx: ComPtr, f: spec_fn(D3d11ContextData) -> D3d11ContextData) -> HeapView {
    if ctx.addr == 0 {
        s
    } else {
        match context_data(s, ctx) {
            Some(d) => with_impl_data(s, ctx, ImplData::D3d11Context(f(d))),
            None => s,
        }
    }
}

/// One more draw call.
pub open spec fn count_draw(d: D3d11ContextData) -> D3d11ContextData {
    D3d11ContextData { draw_calls: (d.draw_calls + 1) as u64, ..d }
}

/// A vertex shader bound.
pub open spec fn set_vs_shader(d: D3d11ContextData, shader: u64) -> D3d11ContextData {
    D3d11ContextData { vs_shader: shader, ..d }
}

/// A pixel shader bound.
pub open spec fn set_ps_shader(d: D3d11ContextData, shader: u64) -> D3d11ContextData {
    D3d11ContextData { ps_shader: shader, ..d }
}

/// A draw may run on `ctx`: its draw counter has room for one more call.
pub open spec fn can_draw(s: HeapView, ctx: ComPtr) -> bool {
    ctx.addr != 0 && context_data(s, ctx) is Some ==> context_data(s, ctx)->0.draw_calls < u64::MAX
}

// =============================================================================
// D3D11 API entry points
// =============================================================================

/// D3D11CreateDevice — create a D3D11 device and its immediate context.
///
/// The device gets the first feature level asked for, or 11.1 where none is
/// given. Null outputs are skipped.
pub fn d3d11_create_device(
    heap: &mut ComHeap,
    adapter: ComPtr,
    driver_type: u32,
    software: u64,
    flags: u32,
    feature_levels: Option<&[u32]>,
    feature_level_count: u32,
    sdk_version: u32,
    device_out: Option<&mut ComPtr>,
    feature_level_out: Option<&mut u32>,
    context_out: Option<&mut ComPtr>,
) -> (r: HResult)
    requires
        old(heap).wf(),
        feature_levels is Some && feature_level_count > 0 ==> feature_levels->0@.len() >= 1,
    ensures
        final(heap).wf(),
        r == S_OK,
        final(heap)@ == after_create_device(old(heap)@, chosen_feature_level(feature_levels, feature_level_count)),
        device_out is Some ==> final(device_out.unwrap()).addr == old(heap)@.len() + 1,
        context_out is Some ==> final(context_out.unwrap()).addr == old(heap)@.len(),
        feature_level_out is Some ==> *final(feature_level_out.unwrap()) == chosen_feature_level(feature_levels, feature_level_count),
{
    let chosen_level: u32 = match feature_levels {
        Some(levels) => if feature_level_count > 0 { levels[0] } else { D3dFeatureLevel::Level11_1.value() },
        None => D3dFeatureLevel::Level11_1.value(),
    };
    match feature_level_out {
        Some(out) => { *out = chosen_level; },
        None => {},
    }
    let ctx_data = D3d11ContextData {
        device: ComPtr::null(),
        draw_calls: 0,
        vs_shader: 0,
        ps_shader: 0,
        vertex_buffers: [0u64, 0, 0, 0, 0, 0, 0, 0, 0, 0, 0, 0, 0, 0, 0, 0],
        index_buffer: 0,
        render_targets: [0u64, 0, 0, 0, 0, 0, 0, 0],
        depth_stencil: 0,
    };
    let ctx = create_com_object_with_data(heap, TYPE_D3D11_CONTEXT, d3d11_context_vtbl(), ImplData::D3d11Context(ctx_data));
    let dev_data = D3d11DeviceData { feature_level: chosen_level, immediate_context: ctx, buffer_count: 0, texture_count: 0 };
    let device = create_com_object_with_data(heap, TYPE_D3D11_DEVICE, d3d11_device_vtbl(), ImplData::D3d11Device(dev_data));
    let patched = D3d11ContextData { device, ..ctx_data };
    heap.set_impl_data(ctx, ImplData::D3d11Context(patched));
    assert(heap@ =~= after_create_device(old(heap)@, chosen_level));
    match device_out {
        Some(out) => { *out = device; },
        None => {},
    }
    match context_out {
        Some(out) => { *out = ctx; },
        None => {},
    }
    S_OK
}

fn device_data_of(heap: &ComHeap, device: ComPtr) -> (d: Option<D3d11DeviceData>)
    requires
        null_or_live(heap@, device),
    ensures
        d == device_data(heap@, device),
{
    match get_impl_data(heap, device) {
        Some(ImplData::D3d11Device(d)) => Some(*d),
        _ => None,
    }
}

fn context_data_of(heap: &ComHeap, ctx: ComPtr) -> (d: Option<D3d11ContextData>)
    requires
        null_or_live(heap@, ctx),
    ensures
        d == context_data(heap@, ctx),
{
    match get_impl_data(heap, ctx) {
        Some(ImplData::D3d11Context(d)) => Some(*d),
        _ => None,
    }
}

/// ID3D11Device::CreateBuffer — a plain COM object tagged as a buffer; the
/// device counts it.
pub fn create_buffer(
    heap: &mut ComHeap,
    device: ComPtr,
    desc: Option<&D3d11BufferDesc>,
    initial_data: Option<&D3d11SubresourceData>,
    buffer_out: Option<&mut ComPtr>,
) -> (r: HResult)
    requires
        old(heap).wf(),
        desc is Some && buffer_out is Some ==> null_or_live(old(heap)@, device),
        desc is Some && buffer_out is Some && device_data(old(heap)@, device) is Some
            ==> device_data(old(heap)@, device)->0.buffer_count < u32::MAX,
    ensures
        final(heap).wf(),
        r == (if device.addr == 0 || desc is None || buffer_out is None { E_INVALIDARG } else { S_OK }),
        r != S_OK ==> final(heap)@ == old(heap)@,
        r != S_OK && buffer_out is Some ==> *final(buffer_out.unwrap()) == *old(buffer_out.unwrap()),
        r == S_OK ==> final(heap)@ == after_create_buffer(old(heap)@, device),
        r == S_OK ==> *final(buffer_out.unwrap()) == next_ptr(old(heap)@),
{
    if device.is_null() || desc.is_none() || buffer_out.is_none() {
        return E_INVALIDARG;
    }
    let dd = device_data_of(heap, device);
    let buf = create_com_object(heap, TYPE_D3D11_BUFFER, default_iunknown_vtbl());
    match buffer_out {
        Some(out) => { *out = buf; },
        None => {},
    }
    match dd {
        Some(d) => {
            let nd = D3d11DeviceData { buffer_count: d.buffer_count + 1, ..d };
            heap.set_impl_data(device, ImplData::D3d11Device(nd));
        },
        None => {},
    }
    S_OK
}

/// ID3D11Device::CreateTexture2D — a plain COM object tagged as a 2D
/// texture; the device counts it.
pub fn create_texture2d(
    heap: &mut ComHeap,
    device: ComPtr,
    desc: Option<&D3d11Texture2dDesc>,
    initial_data: Option<&D3d11SubresourceData>,
    texture_out: Option<&mut ComPtr>,
) -> (r: HResult)
    requires
        old(heap).wf(),
        desc is Some && texture_out is Some ==> null_or_live(old(heap)@, device),
        desc is Some && texture_out is Some && device_data(old(heap)@, device) is Some
            ==> device_data(old(heap)@, device)->0.texture_count < u32::MAX,
    ensures
        final(heap).wf(),
        r == (if device.addr == 0 || desc is None || texture_out is None { E_INVALIDARG } else { S_OK }),
        r != S_OK ==> final(heap)@ == old(heap)@,
        r != S_OK && texture_out is Some ==> *final(texture_out.unwrap()) == *old(texture_out.unwrap()),
        r == S_OK ==> final(heap)@ == after_create_texture2d(old(heap)@, device),
        r == S_OK ==> *final(texture_out.unwrap()) == next_ptr(old(heap)@),
{
    if device.is_null() || desc.is_none() || texture_out.is_none() {
        return E_INVALIDARG;
    }
    let dd = device_data_of(heap, device);
    let tex = create_com_object(heap, TYPE_D3D11_TEXTURE2D, default_iunknown_vtbl());
    match texture_out {
        Some(out) => { *out = tex; },
        None => {},
    }
    match dd {
        Some(d) => {
            let nd = D3d11DeviceData { texture_count: d.texture_count + 1, ..d };
            heap.set_impl_data(device, ImplData::D3d11Device(nd));
        },
        None => {},
    }
    S_OK
}

fn count_draw_on(heap: &mut ComHeap, ctx: ComPtr)
    requires
        old(heap).wf(),
        null_or_live(old(heap)@, ctx),
        can_draw(old(heap)@, ctx),
    ensures
        final(heap).wf(),
        final(heap)@ == after_context_update(old(heap)@, ctx, |d: D3d11ContextData| count_draw(d)),
{
    if ctx.is_null() {
        return;
    }
    match context_data_of(heap, ctx) {
        Some(d) => {
            let nd = D3d11ContextData { draw_calls: d.draw_calls + 1, ..d };
            heap.set_impl_data(ctx, ImplData::D3d11Context(nd));
        },
        None => {},
    }
}

/// ID3D11DeviceContext::Draw — count one more draw call; a null context is
/// ignored.
pub fn draw(heap: &mut ComHeap, ctx: ComPtr, vertex_count: u32, start_vertex_location: u32)
    requires
        old(heap).wf(),
        null_or_live(old(heap)@, ctx),
        can_draw(old(heap)@, ctx),
    ensures
        final(heap).wf(),
        final(heap)@ == after_context_update(old(heap)@, ctx, |d: D3d11ContextData| count_draw(d)),
{
    count_draw_on(heap, ctx);
}

/// ID3D11DeviceContext::DrawIndexed — count one more draw call; a null
/// context is ignored.
pub fn draw_indexed(heap: &mut ComHeap, ctx: ComPtr, index_count: u32, start_index_location: u32, base_vertex_location: i32)
    requires
        old(heap).wf(),
        null_or_live(old(heap)@, ctx),
        can_draw(old(heap)@, ctx),
    ensures
        final(heap).wf(),
        final(heap)@ == after_context_update(old(heap)@, ctx, |d: D3d11ContextData| count_draw(d)),
{
    count_draw_on(heap, ctx);
}

/// ID3D11DeviceContext::VSSetShader — bind a vertex shader; a null context
/// is ignored.
pub fn vs_set_shader(heap: &mut ComHeap, ctx: ComPtr, shader: u64, class_instances: u64, num_instances: u32)
    requires
        old(heap).wf(),
        null_or_live(old(heap)@, ctx),
    ensures
        final(heap).wf(),
        final(heap)@ == after_context_update(old(heap)@, ctx, |d: D3d11ContextData| set_vs_shader(d, shader)),
{
    if ctx.is_null() {
        return;
    }
    match context_data_of(heap, ctx) {
        Some(d) => {
            let nd = D3d11ContextData { vs_shader: shader, ..d };
            heap.set_impl_data(ctx, ImplData::D3d11Context(nd));
        },
        None => {},
    }
}

/// ID3D11DeviceContext::PSSetShader — bind a pixel shader; a null context
/// is ignored.
pub fn ps_set_shader(heap: &mut ComHeap, ctx: ComPtr, shader: u64, class_instances: u64, num_instances: u32)
    requires
        old(heap).wf(),
        null_or_live(old(heap)@, ctx),
    ensures
        final(heap).wf(),
        final(heap)@ == after_context_update(old(heap)@, ctx, |d: D3d11ContextData| set_ps_shader(d, shader)),
{
    if ctx.is_null() {
        return;
    }
    match context_data_of(heap, ctx) {
        Some(d) => {
            let nd = D3d11ContextData { ps_shader: shader, ..d };
            heap.set_impl_data(ctx, ImplData::D3d11Context(nd));
        },
        None => {},
    }
}

// =============================================================================
// Laws
// =============================================================================

/// D3D11CreateDevice links the two objects it creates: the device names the
/// context as its immediate context, the context names the device as its
/// parent, and both start with one reference and no draw calls or resources.
pub proof fn lemma_created_device_and_context_linked(s: HeapView, feature_level: u32)
    requires
        crate::com::heap_wf(s),
        s.len() + 1 < usize::MAX,
    ensures
        ({
            let t = after_create_device(s, feature_level);
            let ctx = next_ptr(s);
            let device = ComPtr { addr: (ctx.addr + 1) as usize };
            &&& crate::com::is_live(t, ctx)
            &&& crate::com::is_live(t, device)
            &&& crate::com::object(t, ctx).ref_count == 1
            &&& crate::com::object(t, device).ref_count == 1
            &&& device_data(t, device) == Some(D3d11DeviceData {
                feature_level, immediate_context: ctx, buffer_count: 0, texture_count: 0 })
            &&& context_data(t, ctx) is Some
            &&& context_data(t, ctx)->0.device == device
            &&& context_data(t, ctx)->0.draw_calls == 0
        }),
{
}

/// The feature level chosen for a new device is the first one of the list
/// whenever a list with a count of at least one is given; only with no list,
/// or a count of zero, is it 11.1 (0xb100).
pub proof fn lemma_chosen_feature_level(feature_levels: Option<&[u32]>, feature_level_count: u32)
    ensures
        feature_levels is Some && feature_level_count >= 1
            ==> chosen_feature_level(feature_levels, feature_level_count) == feature_levels->0@[0],
        feature_levels is None ==> chosen_feature_level(feature_levels, feature_level_count) == 0xb100,
        feature_level_count == 0 ==> chosen_feature_level(feature_levels, feature_level_count) == 0xb100,
{
}

/// The device D3D11CreateDevice makes carries the first feature level of a
/// non-empty list it was given, else 11.1 (0xb100).
pub proof fn lemma_created_device_feature_level(s: HeapView, feature_levels: Option<&[u32]>, feature_level_count: u32)
    requires
        crate::com::heap_wf(s),
        s.len() + 1 < usize::MAX,
    ensures
        ({
            let t = after_create_device(s, chosen_feature_level(feature_levels, feature_level_count));
            let device = ComPtr { addr: (s.len() + 1) as usize };
            &&& device_data(t, device) is Some
            &&& feature_levels is Some && feature_level_count >= 1 ==> device_data(t, device)->0.feature_level == feature_levels->0@[0]
            &&& !(feature_levels is Some && feature_level_count >= 1) ==> device_data(t, device)->0.feature_level == 0xb100
        }),
{
    lemma_created_device_and_context_linked(s, chosen_feature_level(feature_levels, feature_level_count));
}

/// CreateBuffer appends one live buffer object (one reference, no data) and
/// counts one more buffer on a device with data, leaving its other fields.
pub proof fn lemma_create_buffer_counts_one(s: HeapView, device: ComPtr)
    requires
        crate::com::heap_wf(s),
        crate::com::is_live(s, device),
        device_data(s, device) is Some,
    ensures
        ({
            let t = after_create_buffer(s, device);
            let d = device_data(s, device)->0;
            &&& t.len() == s.len() + 1
            &&& crate::com::is_live(t, next_ptr(s))
            &&& crate::com::object(t, next_ptr(s)).type_id == TYPE_D3D11_BUFFER
            &&& crate::com::object(t, next_ptr(s)).ref_count == 1
            &&& crate::com::object(t, next_ptr(s)).impl_data is None
            &&& device_data(t, device) is Some
            &&& device_data(t, device)->0.buffer_count == d.buffer_count + 1 || d.buffer_count == u32::MAX
            &&& device_data(t, device)->0.texture_count == d.texture_count
            &&& device_data(t, device)->0.feature_level == d.feature_level
            &&& device_data(t, device)->0.immediate_context == d.immediate_context
        }),
{
}

/// CreateTexture2D appends one live texture object (one reference, no data)
/// and counts one more texture on a device with data, leaving its other
/// fields.
pub proof fn lemma_create_texture2d_counts_one(s: HeapView, device: ComPtr)
    requires
        crate::com::heap_wf(s),
        crate::com::is_live(s, device),
        device_data(s, device) is Some,
    ensures
        ({
            let t = after_create_texture2d(s, device);
            let d = device_data(s, device)->0;
            &&& t.len() == s.len() + 1
            &&& crate::com::is_live(t, next_ptr(s))
            &&& crate::com::object(t, next_ptr(s)).type_id == TYPE_D3D11_TEXTURE2D
            &&& crate::com::object(t, next_ptr(s)).ref_count == 1
            &&& crate::com::object(t, next_ptr(s)).impl_data is None
            &&& device_data(t, device) is Some
            &&& device_data(t, device)->0.texture_count == d.texture_count + 1 || d.texture_count == u32::MAX
            &&& device_data(t, device)->0.buffer_count == d.buffer_count
            &&& device_data(t, device)->0.feature_level == d.feature_level
            &&& device_data(t, device)->0.immediate_context == d.immediate_context
        }),
{
}

/// A draw counts exactly one more call; binding a shader replaces that stage's
/// shader; neither touches anything else of the context.
pub proof fn lemma_context_updates(d: D3d11ContextData, shader: u64)
    requires
        d.draw_calls < u64::MAX,
    ensures
        count_draw(d).draw_calls == d.draw_calls + 1,
        count_draw(d) == (D3d11ContextData { draw_calls: count_draw(d).draw_calls, ..d }),
        set_vs_shader(d, shader).vs_shader == shader,
        set_vs_shader(d, shader) == (D3d11ContextData { vs_shader: shader, ..d }),
        set_ps_shader(d, shader).ps_shader == shader,
        set_ps_shader(d, shader) == (D3d11ContextData { ps_shader: shader, ..d }),
        new_context_data(d.device).draw_calls == 0,
        new_context_data(d.device).vs_shader == 0 && new_context_data(d.device).ps_shader == 0,
        new_context_data(d.device).index_buffer == 0 && new_context_data(d.device).depth_stencil == 0,
        forall|i: int| 0 <= i < 16 ==> new_context_data(d.device).vertex_buffers@[i] == 0,
        forall|i: int| 0 <= i < 8 ==> new_context_data(d.device).render_targets@[i] == 0,
{
}

/// A D3D11 device answers QueryInterface for exactly IUnknown and
/// ID3D11Device, a context for exactly IUnknown and ID3D11DeviceContext:
/// asking either for the other's interface gives E_NOINTERFACE.
pub proof fn lemma_d3d11_tables_grant_exactly(iid: Guid)
    ensures
        crate::com::query_interface_result(spec_d3d11_device_vtbl(), Some(&iid), true) == S_OK
            <==> (iid == crate::com::spec_iid_iunknown() || iid == spec_iid_id3d11device()),
        crate::com::query_interface_result(spec_d3d11_context_vtbl(), Some(&iid), true) == S_OK
            <==> (iid == crate::com::spec_iid_iunknown() || iid == spec_iid_id3d11devicecontext()),
        crate::com::query_interface_result(spec_d3d11_device_vtbl(), Some(&spec_iid_id3d11devicecontext()), true)
            == crate::com::E_NOINTERFACE,
        crate::com::query_interface_result(spec_d3d11_context_vtbl(), Some(&spec_iid_id3d11device()), true)
            == crate::com::E_NOINTERFACE,
{
    crate::com::lemma_query_interface_grants_exactly(spec_d3d11_device_vtbl(), iid, None);
    crate::com::lemma_query_interface_grants_exactly(spec_d3d11_context_vtbl(), iid, None);
    crate::com::lemma_query_interface_grants_exactly(spec_d3d11_device_vtbl(), spec_iid_id3d11devicecontext(), None);
    crate::com::lemma_query_interface_grants_exactly(spec_d3d11_context_vtbl(), spec_iid_id3d11device(), None);
}

} // verus!
