//! Direct3D 12.
//!
//! ID3D12Device, ID3D12CommandQueue and ID3D12GraphicsCommandList as COM
//! objects in a `ComHeap`. The device counts the queues, pipeline states and
//! root signatures it creates; command lists count draw calls and queues count
//! the command lists they execute.

use vstd::prelude::*;
use crate::com::{
    ComHeap, HeapView, ComPtr, Guid, HResult, IUnknownVtbl, ImplData, guid_of, impl_data_of, next_ptr,
    null_or_live, with_impl_data, with_new_object, create_com_object, create_com_object_with_data,
    get_impl_data, spec_default_iunknown_vtbl, default_iunknown_vtbl, S_OK, E_INVALIDARG,
    TYPE_D3D12_DEVICE, TYPE_D3D12_COMMAND_QUEUE,
};

verus! {

// =============================================================================
// D3D12 GUIDs
// =============================================================================

pub open spec fn spec_iid_id3d12device() -> Guid {
    guid_of(0x189819F1, 0x1DB6, 0x4B57, [0xBE, 0x54, 0x18, 0x21, 0x33, 0x9B, 0x85, 0xF7])
}

/// IID_ID3D12Device: {189819F1-1DB6-4B57-BE54-1821339B85F7}
#[verifier::when_used_as_spec(spec_iid_id3d12device)]
pub fn iid_id3d12device() -> (g: Guid)
    ensures
        g == spec_iid_id3d12device(),
{
    Guid { data1: 0x189819F1, data2: 0x1DB6, data3: 0x4B57, data4: [0xBE, 0x54, 0x18, 0x21, 0x33, 0x9B, 0x85, 0xF7] }
}

pub open spec fn spec_iid_id3d12commandqueue() -> Guid {
    guid_of(0x0EC870A6, 0x5D7E, 0x4C22, [0x8C, 0xFC, 0x5B, 0xAA, 0xE0, 0x76, 0x16, 0xED])
}

/// IID_ID3D12CommandQueue: {0EC870A6-5D7E-4C22-8CFC-5BAAE07616ED}
#[verifier::when_used_as_spec(spec_iid_id3d12commandqueue)]
pub fn iid_id3d12commandqueue() -> (g: Guid)
    ensures
        g == spec_iid_id3d12commandqueue(),
{
    Guid { data1: 0x0EC870A6, data2: 0x5D7E, data3: 0x4C22, data4: [0x8C, 0xFC, 0x5B, 0xAA, 0xE0, 0x76, 0x16, 0xED] }
}

pub open spec fn spec_iid_id3d12graphicscommandlist() -> Guid {
    guid_of(0x5B160D0F, 0xAC1B, 0x4185, [0x8B, 0xA8, 0xB3, 0xAE, 0x42, 0xA5, 0xA4, 0x55])
}

/// IID_ID3D12GraphicsCommandList: {5B160D0F-AC1B-4185-8BA8-B3AE42A5A455}
#[verifier::when_used_as_spec(spec_iid_id3d12graphicscommandlist)]
pub fn iid_id3d12graphicscommandlist() -> (g: Guid)
    ensures
        g == spec_iid_id3d12graphicscommandlist(),
{
    Guid { data1: 0x5B160D0F, data2: 0xAC1B, data3: 0x4185, data4: [0x8B, 0xA8, 0xB3, 0xAE, 0x42, 0xA5, 0xA4, 0x55] }
}

// =============================================================================
// D3D12 types
// =============================================================================

/// D3D12 command list types.
#[derive(Clone, Copy, Debug, PartialEq, Eq, Structural)]
pub enum D3d12CommandListType {
    Direct,
    Bundle,
    Compute,
    Copy,
}

impl D3d12CommandListType {
    /// The D3D12_COMMAND_LIST_TYPE value.
    pub fn value(&self) -> (v: u32)
        ensures
            v == match *self {
                D3d12CommandListType::Direct => 0u32,
                D3d12CommandListType::Bundle => 1,
                D3d12CommandListType::Compute => 2,
                D3d12CommandListType::Copy => 3,
            },
    {
        match *self {
            D3d12CommandListType::Direct => 0,
            D3d12CommandListType::Bundle => 1,
            D3d12CommandListType::Compute => 2,
            D3d12CommandListType::Copy => 3,
        }
    }
}

/// D3D12_COMMAND_QUEUE_DESC.
pub struct D3d12CommandQueueDesc {
    pub list_type: u32,
    pub priority: i32,
    pub flags: u32,
    pub node_mask: u32,
}

/// D3D12_GRAPHICS_PIPELINE_STATE_DESC (simplified).
pub struct D3d12GraphicsPipelineStateDesc {
    pub root_signature: u64,
    pub vs_bytecode: u64,
    pub vs_length: u64,
    pub ps_bytecode: u64,
    pub ps_length: u64,
    pub blend_state: [u8; 64],
    pub sample_mask: u32,
    pub rasterizer_state: [u8; 40],
    pub depth_stencil_state: [u8; 28],
    pub input_layout_count: u32,
    pub input_layout_elements: u64,
    pub primitive_topology_type: u32,
    pub num_render_targets: u32,
    pub rtv_formats: [u32; 8],
    pub dsv_format: u32,
    pub sample_desc_count: u32,
    pub sample_desc_quality: u32,
}

/// D3D12_ROOT_SIGNATURE_DESC (simplified).
pub struct D3d12RootSignatureDesc {
    pub num_parameters: u32,
    pub parameters: u64,
    pub num_static_samplers: u32,
    pub static_samplers: u64,
    pub flags: u32,
}

/// D3D12 primitive topology types.
#[derive(Clone, Copy, Debug, PartialEq, Eq, Structural)]
pub enum D3d12PrimitiveTopologyType {
    Undefined,
    Point,
    Line,
    Triangle,
    Patch,
}

impl D3d12PrimitiveTopologyType {
    /// The D3D12_PRIMITIVE_TOPOLOGY_TYPE value.
    pub fn value(&self) -> (v: u32)
        ensures
            v == match *self {
                D3d12PrimitiveTopologyType::Undefined => 0u32,
                D3d12PrimitiveTopologyType::Point => 1,
                D3d12PrimitiveTopologyType::Line => 2,
                D3d12PrimitiveTopologyType::Triangle => 3,
                D3d12PrimitiveTopologyType::Patch => 4,
            },
    {
        match *self {
            D3d12PrimitiveTopologyType::Undefined => 0,
            D3d12PrimitiveTopologyType::Point => 1,
            D3d12PrimitiveTopologyType::Line => 2,
            D3d12PrimitiveTopologyType::Triangle => 3,
            D3d12PrimitiveTopologyType::Patch => 4,
        }
    }
}

/// Internal state for ID3D12Device.
#[derive(Clone, Copy, Debug)]
pub struct D3d12DeviceData {
    pub node_count: u32,
    /// Created command queues.
    pub command_queue_count: u32,
    /// Created pipeline state objects.
    pub pso_count: u32,
    /// Created root signatures.
    pub root_sig_count: u32,
    /// Created command allocators.
    pub cmd_allocator_count: u32,
}

/// Internal state for ID3D12CommandQueue.
#[derive(Clone, Copy, Debug)]
pub struct D3d12CommandQueueData {
    pub device: ComPtr,
    pub list_type: u32,
    /// Submitted command list count.
    pub executed_lists: u64,
}

/// Internal state for ID3D12GraphicsCommandList.
#[derive(Clone, Copy, Debug)]
pub struct D3d12CommandListData {
    pub device: ComPtr,
    pub list_type: u32,
    /// Whether recording is in progress.
    pub recording: bool,
    /// Current pipeline state object.
    pub pipeline_state: u64,
    /// Current root signature.
    pub root_signature: u64,
    /// Draw call counter.
    pub draw_calls: u64,
    /// Dispatch counter.
    pub dispatches: u64,
}

// =============================================================================
// Interface tables
// =============================================================================

pub open spec fn spec_d3d12_device_vtbl() -> IUnknownVtbl {
    IUnknownVtbl { interface: Some(spec_iid_id3d12device()) }
}

/// The ID3D12Device table: QueryInterface grants IUnknown and ID3D12Device.
#[verifier::when_used_as_spec(spec_d3d12_device_vtbl)]
pub fn d3d12_device_vtbl() -> (v: IUnknownVtbl)
    ensures
        v == spec_d3d12_device_vtbl(),
{
    IUnknownVtbl { interface: Some(iid_id3d12device()) }
}

pub open spec fn spec_d3d12_queue_vtbl() -> IUnknownVtbl {
    IUnknownVtbl { interface: Some(spec_iid_id3d12commandqueue()) }
}

/// The ID3D12CommandQueue table: QueryInterface grants IUnknown and
/// ID3D12CommandQueue.
#[verifier::when_used_as_spec(spec_d3d12_queue_vtbl)]
pub fn d3d12_queue_vtbl() -> (v: IUnknownVtbl)
    ensures
        v == spec_d3d12_queue_vtbl(),
{
    IUnknownVtbl { interface: Some(iid_id3d12commandqueue()) }
}

pub open spec fn spec_d3d12_cmdlist_vtbl() -> IUnknownVtbl {
    IUnknownVtbl { interface: Some(spec_iid_id3d12graphicscommandlist()) }
}

/// The ID3D12GraphicsCommandList table: QueryInterface grants IUnknown and
/// ID3D12GraphicsCommandList.
#[verifier::when_used_as_spec(spec_d3d12_cmdlist_vtbl)]
pub fn d3d12_cmdlist_vtbl() -> (v: IUnknownVtbl)
    ensures
        v == spec_d3d12_cmdlist_vtbl(),
{
    IUnknownVtbl { interface: Some(iid_id3d12graphicscommandlist()) }
}

// =============================================================================
// Specifications
// =============================================================================

/// The state of a new device: one node, nothing created yet.
pub open spec fn new_device_data() -> D3d12DeviceData {
    D3d12DeviceData { node_count: 1, command_queue_count: 0, pso_count: 0, root_sig_count: 0, cmd_allocator_count: 0 }
}

/// The device data of `p`, where `p` holds some.
pub open spec fn device_data(s: HeapView, p: ComPtr) -> Option<D3d12DeviceData> {
    match impl_data_of(s, p) {
        Some(ImplData::D3d12Device(d)) => Some(d),
        _ => None,
    }
}

/// The heap after creating `created` for `device`: the new object, and the
/// device data (if `device` has any) replaced by `f`'s.
pub open spec fn after_device_creates(
    s: HeapView,
    device: ComPtr,
    vtbl: IUnknownVtbl,
    type_id: u32,
    created: Option<ImplData>,
    f: spec_fn(D3d12DeviceData) -> D3d12DeviceData,
) -> HeapView {
    let t = with_new_object(s, vtbl, type_id, created);
    match device_data(s, device) {
        Some(d) => with_impl_data(t, device, ImplData::D3d12Device(f(d))),
        None => t,
    }
}

/// One more command queue counted.
pub open spec fn count_queue(d: D3d12DeviceData) -> D3d12DeviceData {
    D3d12DeviceData { command_queue_count: (d.command_queue_count + 1) as u32, ..d }
}

/// One more pipeline state counted.
pub open spec fn count_pso(d: D3d12DeviceData) -> D3d12DeviceData {
    D3d12DeviceData { pso_count: (d.pso_count + 1) as u32, ..d }
}

/// One more root signature counted.
pub open spec fn count_root_sig(d: D3d12DeviceData) -> D3d12DeviceData {
    D3d12DeviceData { root_sig_count: (d.root_sig_count + 1) as u32, ..d }
}

/// The command list data of `p`, where `p` holds some.
pub open spec fn cmdlist_data(s: HeapView, p: ComPtr) -> Option<D3d12CommandListData> {
    match impl_data_of(s, p) {
        Some(ImplData::D3d12CommandList(d)) => Some(d),
        _ => None,
    }
}

/// The queue data of `p`, where `p` holds some.
pub open spec fn queue_data(s: HeapView, p: ComPtr) -> Option<D3d12CommandQueueData> {
    match impl_data_of(s, p) {
        Some(ImplData::D3d12CommandQueue(d)) => Some(d),
        _ => None,
    }
}

/// A draw may run on `cmdlist`: its draw counter has room for one more call.
pub open spec fn can_draw(s: HeapView, cmdlist: ComPtr) -> bool {
    cmdlist.addr != 0 && cmdlist_data(s, cmdlist) is Some ==> cmdlist_data(s, cmdlist)->0.draw_calls < u64::MAX
}

/// The heap after a draw on `cmdlist`: one more draw call counted.
pub open spec fn after_draw(s: HeapView, cmdlist: ComPtr) -> HeapView {
    if cmdlist.addr == 0 {
        s
    } else {
        match cmdlist_data(s, cmdlist) {
            Some(d) => with_impl_data(s, cmdlist, ImplData::D3d12CommandList(
                D3d12CommandListData { draw_calls: (d.draw_calls + 1) as u64, ..d },
            )),
            None => s,
        }
    }
}

/// The heap after `queue` executes `n` command lists: `n` more counted.
pub open spec fn after_execute(s: HeapView, queue: ComPtr, n: u32) -> HeapView {
    if queue.addr == 0 {
        s
    } else {
        match queue_data(s, queue) {
            Some(d) => with_impl_data(s, queue, ImplData::D3d12CommandQueue(
                D3d12CommandQueueData { executed_lists: (d.executed_lists + n) as u64, ..d },
            )),
            None => s,
        }
    }
}

// =============================================================================
// D3D12 API entry points
// =============================================================================

/// D3D12CreateDevice — create a D3D12 device with one node.
pub fn d3d12_create_device(
    heap: &mut ComHeap,
    adapter: ComPtr,
    minimum_feature_level: u32,
    riid: Option<&Guid>,
    device_out: Option<&mut ComPtr>,
) -> (r: HResult)
    requires
        old(heap).wf(),
    ensures
        final(heap).wf(),
        r == (if device_out is None { E_INVALIDARG } else { S_OK }),
        r != S_OK ==> final(heap)@ == old(heap)@,
        r == S_OK ==> final(heap)@ == with_new_object(old(heap)@, spec_d3d12_device_vtbl(), TYPE_D3D12_DEVICE,
            Some(ImplData::D3d12Device(new_device_data()))),
        r == S_OK ==> *final(device_out.unwrap()) == next_ptr(old(heap)@),
{
    match device_out {
        None => E_INVALIDARG,
        Some(out) => {
            let data = D3d12DeviceData { node_count: 1, command_queue_count: 0, pso_count: 0, root_sig_count: 0, cmd_allocator_count: 0 };
            let device = create_com_object_with_data(heap, TYPE_D3D12_DEVICE, d3d12_device_vtbl(), ImplData::D3d12Device(data));
            *out = device;
            S_OK
        },
    }
}

fn device_data_of(heap: &ComHeap, device: ComPtr) -> (d: Option<D3d12DeviceData>)
    requires
        null_or_live(heap@, device),
    ensures
        d == device_data(heap@, device),
{
    match get_impl_data(heap, device) {
        Some(ImplData::D3d12Device(d)) => Some(*d),
        _ => None,
    }
}

/// ID3D12Device::CreateCommandQueue — a queue of the described list type;
/// the device counts it.
pub fn create_command_queue(
    heap: &mut ComHeap,
    device: ComPtr,
    desc: Option<&D3d12CommandQueueDesc>,
    riid: Option<&Guid>,
    queue_out: Option<&mut ComPtr>,
) -> (r: HResult)
    requires
        old(heap).wf(),
        desc is Some && queue_out is Some ==> null_or_live(old(heap)@, device),
        desc is Some && queue_out is Some && device_data(old(heap)@, device) is Some
            ==> device_data(old(heap)@, device)->0.command_queue_count < u32::MAX,
    ensures
        final(heap).wf(),
        r == (if device.addr == 0 || desc is None || queue_out is None { E_INVALIDARG } else { S_OK }),
        r != S_OK ==> final(heap)@ == old(heap)@,
        r != S_OK && queue_out is Some ==> *final(queue_out.unwrap()) == *old(queue_out.unwrap()),
        r == S_OK ==> final(heap)@ == after_device_creates(old(heap)@, device, spec_d3d12_queue_vtbl(),
            TYPE_D3D12_COMMAND_QUEUE,
            Some(ImplData::D3d12CommandQueue(D3d12CommandQueueData { device, list_type: desc.unwrap().list_type, executed_lists: 0 })),
            |d: D3d12DeviceData| count_queue(d)),
        r == S_OK ==> *final(queue_out.unwrap()) == next_ptr(old(heap)@),
{
    if device.is_null() || desc.is_none() || queue_out.is_none() {
        return E_INVALIDARG;
    }
    let list_type = desc.unwrap().list_type;
    let dd = device_data_of(heap, device);
    let data = D3d12CommandQueueData { device, list_type, executed_lists: 0 };
    let queue = create_com_object_with_data(heap, TYPE_D3D12_COMMAND_QUEUE, d3d12_queue_vtbl(), ImplData::D3d12CommandQueue(data));
    match queue_out {
        Some(out) => { *out = queue; },
        None => {},
    }
    match dd {
        Some(d) => {
            let nd = D3d12DeviceData { command_queue_count: d.command_queue_count + 1, ..d };
            heap.set_impl_data(device, ImplData::D3d12Device(nd));
        },
        None => {},
    }
    S_OK
}

/// ID3D12Device::CreateGraphicsPipelineState — a plain COM object (type 0);
/// the device counts it.
pub fn create_graphics_pipeline_state(
    heap: &mut ComHeap,
    device: ComPtr,
    desc: Option<&D3d12GraphicsPipelineStateDesc>,
    riid: Option<&Guid>,
    pso_out: Option<&mut ComPtr>,
) -> (r: HResult)
    requires
        old(heap).wf(),
        desc is Some && pso_out is Some ==> null_or_live(old(heap)@, device),
        desc is Some && pso_out is Some && device_data(old(heap)@, device) is Some
            ==> device_data(old(heap)@, device)->0.pso_count < u32::MAX,
    ensures
        final(heap).wf(),
        r == (if device.addr == 0 || desc is None || pso_out is None { E_INVALIDARG } else { S_OK }),
        r != S_OK ==> final(heap)@ == old(heap)@,
        r != S_OK && pso_out is Some ==> *final(pso_out.unwrap()) == *old(pso_out.unwrap()),
        r == S_OK ==> final(heap)@ == after_device_creates(old(heap)@, device, spec_default_iunknown_vtbl(), 0,
            None, |d: D3d12DeviceData| count_pso(d)),
        r == S_OK ==> *final(pso_out.unwrap()) == next_ptr(old(heap)@),
{
    if device.is_null() || desc.is_none() || pso_out.is_none() {
        return E_INVALIDARG;
    }
    let dd = device_data_of(heap, device);
    let pso = create_com_object(heap, 0, default_iunknown_vtbl());
    match pso_out {
        Some(out) => { *out = pso; },
        None => {},
    }
    match dd {
        Some(d) => {
            let nd = D3d12DeviceData { pso_count: d.pso_count + 1, ..d };
            heap.set_impl_data(device, ImplData::D3d12Device(nd));
        },
        None => {},
    }
    S_OK
}

/// ID3D12Device::CreateRootSignature — a plain COM object (type 0); the
/// device counts it. The blob is not read.
pub fn create_root_signature(
    heap: &mut ComHeap,
    device: ComPtr,
    node_mask: u32,
    blob: Option<&[u8]>,
    blob_length: u64,
    riid: Option<&Guid>,
    root_sig_out: Option<&mut ComPtr>,
) -> (r: HResult)
    requires
        old(heap).wf(),
        root_sig_out is Some ==> null_or_live(old(heap)@, device),
        root_sig_out is Some && device_data(old(heap)@, device) is Some
            ==> device_data(old(heap)@, device)->0.root_sig_count < u32::MAX,
    ensures
        final(heap).wf(),
        r == (if device.addr == 0 || root_sig_out is None { E_INVALIDARG } else { S_OK }),
        r != S_OK ==> final(heap)@ == old(heap)@,
        r != S_OK && root_sig_out is Some ==> *final(root_sig_out.unwrap()) == *old(root_sig_out.unwrap()),
        r == S_OK ==> final(heap)@ == after_device_creates(old(heap)@, device, spec_default_iunknown_vtbl(), 0,
            None, |d: D3d12DeviceData| count_root_sig(d)),
        r == S_OK ==> *final(root_sig_out.unwrap()) == next_ptr(old(heap)@),
{
    if device.is_null() || root_sig_out.is_none() {
        return E_INVALIDARG;
    }
    let dd = device_data_of(heap, device);
    let rs = create_com_object(heap, 0, default_iunknown_vtbl());
    match root_sig_out {
        Some(out) => { *out = rs; },
        None => {},
    }
    match dd {
        Some(d) => {
            let nd = D3d12DeviceData { root_sig_count: d.root_sig_count + 1, ..d };
            heap.set_impl_data(device, ImplData::D3d12Device(nd));
        },
        None => {},
    }
    S_OK
}

fn count_draw_on(heap: &mut ComHeap, cmdlist: ComPtr)
    requires
        old(heap).wf(),
        null_or_live(old(heap)@, cmdlist),
        can_draw(old(heap)@, cmdlist),
    ensures
        final(heap).wf(),
        final(heap)@ == after_draw(old(heap)@, cmdlist),
{
    if cmdlist.is_null() {
        return;
    }
    let cd: Option<D3d12CommandListData> = match get_impl_data(heap, cmdlist) {
        Some(ImplData::D3d12CommandList(d)) => Some(*d),
        _ => None,
    };
    match cd {
        Some(d) => {
            let nd = D3d12CommandListData { draw_calls: d.draw_calls + 1, ..d };
            heap.set_impl_data(cmdlist, ImplData::D3d12CommandList(nd));
        },
        None => {},
    }
}

/// ID3D12GraphicsCommandList::DrawInstanced — count one more draw call; a
/// null command list is ignored.
pub fn draw_instanced(
    heap: &mut ComHeap,
    cmdlist: ComPtr,
    vertex_count_per_instance: u32,
    instance_count: u32,
    start_vertex_location: u32,
    start_instance_location: u32,
)
    requires
        old(heap).wf(),
        null_or_live(old(heap)@, cmdlist),
        can_draw(old(heap)@, cmdlist),
    ensures
        final(heap).wf(),
        final(heap)@ == after_draw(old(heap)@, cmdlist),
{
    count_draw_on(heap, cmdlist);
}

/// ID3D12GraphicsCommandList::DrawIndexedInstanced — count one more draw
/// call; a null command list is ignored.
pub fn draw_indexed_instanced(
    heap: &mut ComHeap,
    cmdlist: ComPtr,
    index_count_per_instance: u32,
    instance_count: u32,
    start_index_location: u32,
    base_vertex_location: i32,
    start_instance_location: u32,
)
    requires
        old(heap).wf(),
        null_or_live(old(heap)@, cmdlist),
        can_draw(old(heap)@, cmdlist),
    ensures
        final(heap).wf(),
        final(heap)@ == after_draw(old(heap)@, cmdlist),
{
    count_draw_on(heap, cmdlist);
}

/// ID3D12CommandQueue::ExecuteCommandLists — count the executed lists; a
/// null queue is ignored. The lists themselves are not read.
pub fn execute_command_lists(heap: &mut ComHeap, queue: ComPtr, num_command_lists: u32, command_lists: Option<&[ComPtr]>)
    requires
        old(heap).wf(),
        null_or_live(old(heap)@, queue),
        queue.addr != 0 && queue_data(old(heap)@, queue) is Some
            ==> queue_data(old(heap)@, queue)->0.executed_lists + num_command_lists <= u64::MAX,
    ensures
        final(heap).wf(),
        final(heap)@ == after_execute(old(heap)@, queue, num_command_lists),
{
    if queue.is_null() {
        return;
    }
    let qd: Option<D3d12CommandQueueData> = match get_impl_data(heap, queue) {
        Some(ImplData::D3d12CommandQueue(d)) => Some(*d),
        _ => None,
    };
    match qd {
        Some(d) => {
            let nd = D3d12CommandQueueData { executed_lists: d.executed_lists + num_command_lists as u64, ..d };
            heap.set_impl_data(queue, ImplData::D3d12CommandQueue(nd));
        },
        None => {},
    }
}

// =============================================================================
// Laws
// =============================================================================

/// Executing `n` command lists and then `m` counts as executing `n + m` at
/// once.
pub proof fn lemma_execute_counts_add(s: HeapView, queue: ComPtr, n: u32, m: u32)
    requires
        crate::com::is_live(s, queue),
        queue_data(s, queue) is Some ==> queue_data(s, queue)->0.executed_lists + n + m <= u64::MAX,
        n + m <= u32::MAX,
    ensures
        after_execute(after_execute(s, queue, n), queue, m) == after_execute(s, queue, (n + m) as u32),
{
    match queue_data(s, queue) {
        Some(d) => {
            let t = after_execute(s, queue, n);
            assert(queue_data(t, queue) == Some(D3d12CommandQueueData { executed_lists: (d.executed_lists + n) as u64, ..d }));
            assert(after_execute(t, queue, m) =~= after_execute(s, queue, (n + m) as u32));
        },
        None => {},
    }
}

/// A new device has one node and has created nothing; creating a queue, a
/// pipeline state or a root signature counts exactly one more of that kind
/// and leaves the other counts.
pub proof fn lemma_device_counts_one(d: D3d12DeviceData)
    requires
        d.command_queue_count < u32::MAX,
        d.pso_count < u32::MAX,
        d.root_sig_count < u32::MAX,
    ensures
        new_device_data().node_count == 1,
        new_device_data().command_queue_count == 0 && new_device_data().pso_count == 0,
        new_device_data().root_sig_count == 0 && new_device_data().cmd_allocator_count == 0,
        count_queue(d).command_queue_count == d.command_queue_count + 1,
        count_queue(d) == (D3d12DeviceData { command_queue_count: count_queue(d).command_queue_count, ..d }),
        count_pso(d).pso_count == d.pso_count + 1,
        count_pso(d) == (D3d12DeviceData { pso_count: count_pso(d).pso_count, ..d }),
        count_root_sig(d).root_sig_count == d.root_sig_count + 1,
        count_root_sig(d) == (D3d12DeviceData { root_sig_count: count_root_sig(d).root_sig_count, ..d }),
{
}

/// Creating an object for a device appends it as a live object with one
/// reference and the given table, tag and data, and updates the data of a
/// device that has some; every other object stays as it was.
pub proof fn lemma_device_creates_appends(
    s: HeapView,
    device: ComPtr,
    vtbl: IUnknownVtbl,
    type_id: u32,
    created: Option<ImplData>,
    f: spec_fn(D3d12DeviceData) -> D3d12DeviceData,
    q: ComPtr,
)
    requires
        crate::com::heap_wf(s),
        crate::com::is_live(s, device),
        0 < q.addr < s.len(),
        q != device,
    ensures
        ({
            let t = after_device_creates(s, device, vtbl, type_id, created, f);
            &&& t.len() == s.len() + 1
            &&& crate::com::is_live(t, next_ptr(s))
            &&& crate::com::object(t, next_ptr(s)).vtbl == vtbl
            &&& crate::com::object(t, next_ptr(s)).type_id == type_id
            &&& crate::com::object(t, next_ptr(s)).ref_count == 1
            &&& crate::com::object(t, next_ptr(s)).impl_data == created
            &&& device_data(s, device) is Some ==> device_data(t, device) == Some(f(device_data(s, device)->0))
            &&& device_data(s, device) is None ==> device_data(t, device) is None
            &&& t[q.addr as int] == s[q.addr as int]
        }),
{
}

/// A draw on a command list with data counts exactly one more draw call and
/// leaves the rest of the list, and every other object, as it was.
pub proof fn lemma_draw_counts_one_call(s: HeapView, cmdlist: ComPtr, q: ComPtr)
    requires
        crate::com::is_live(s, cmdlist),
        cmdlist_data(s, cmdlist) is Some,
        cmdlist_data(s, cmdlist)->0.draw_calls < u64::MAX,
        q != cmdlist,
    ensures
        ({
            let t = after_draw(s, cmdlist);
            let d = cmdlist_data(s, cmdlist)->0;
            &&& t.len() == s.len()
            &&& cmdlist_data(t, cmdlist) == Some(D3d12CommandListData { draw_calls: (d.draw_calls + 1) as u64, ..d })
            &&& cmdlist_data(t, cmdlist)->0.draw_calls == d.draw_calls + 1
            &&& 0 <= q.addr < s.len() ==> t[q.addr as int] == s[q.addr as int]
        }),
{
}

/// Executing `n` command lists on a queue with data counts exactly `n` more
/// executed lists and leaves the queue's device and list type.
pub proof fn lemma_execute_counts_lists(s: HeapView, queue: ComPtr, n: u32)
    requires
        crate::com::is_live(s, queue),
        queue_data(s, queue) is Some,
        queue_data(s, queue)->0.executed_lists + n <= u64::MAX,
    ensures
        ({
            let t = after_execute(s, queue, n);
            let d = queue_data(s, queue)->0;
            &&& t.len() == s.len()
            &&& queue_data(t, queue) is Some
            &&& queue_data(t, queue)->0.executed_lists == d.executed_lists + n
            &&& queue_data(t, queue)->0.device == d.device
            &&& queue_data(t, queue)->0.list_type == d.list_type
        }),
{
}

} // verus!
