use dxvk_bridge_nostd::com::{get_impl_data, create_com_object_with_data, ComHeap, ComPtr, ImplData, E_INVALIDARG, S_OK,
    TYPE_D3D12_COMMAND_LIST, TYPE_D3D12_COMMAND_QUEUE, TYPE_D3D12_DEVICE};
use dxvk_bridge_nostd::d3d12::{
    create_command_queue, create_graphics_pipeline_state, create_root_signature, d3d12_cmdlist_vtbl, d3d12_create_device,
    draw_indexed_instanced, draw_instanced, execute_command_lists, iid_id3d12commandqueue, D3d12CommandListData,
    D3d12CommandListType, D3d12CommandQueueData, D3d12CommandQueueDesc, D3d12DeviceData, D3d12GraphicsPipelineStateDesc,
    D3d12PrimitiveTopologyType,
};

fn device_data(heap: &ComHeap, p: ComPtr) -> D3d12DeviceData {
    match get_impl_data(heap, p) {
        Some(ImplData::D3d12Device(d)) => *d,
        _ => panic!("not a device"),
    }
}

fn queue_data(heap: &ComHeap, p: ComPtr) -> D3d12CommandQueueData {
    match get_impl_data(heap, p) {
        Some(ImplData::D3d12CommandQueue(d)) => *d,
        _ => panic!("not a queue"),
    }
}

fn cmdlist_data(heap: &ComHeap, p: ComPtr) -> D3d12CommandListData {
    match get_impl_data(heap, p) {
        Some(ImplData::D3d12CommandList(d)) => *d,
        _ => panic!("not a command list"),
    }
}

fn setup() -> (ComHeap, ComPtr) {
    let mut heap = ComHeap::new();
    let mut dev = ComPtr::null();
    assert_eq!(d3d12_create_device(&mut heap, ComPtr::null(), 0xb000, None, Some(&mut dev)), S_OK);
    (heap, dev)
}

fn pso_desc() -> D3d12GraphicsPipelineStateDesc {
    D3d12GraphicsPipelineStateDesc {
        root_signature: 0, vs_bytecode: 0, vs_length: 0, ps_bytecode: 0, ps_length: 0, blend_state: [0; 64],
        sample_mask: 0xFFFF_FFFF, rasterizer_state: [0; 40], depth_stencil_state: [0; 28], input_layout_count: 0,
        input_layout_elements: 0, primitive_topology_type: D3d12PrimitiveTopologyType::Triangle.value(),
        num_render_targets: 1, rtv_formats: [28, 0, 0, 0, 0, 0, 0, 0], dsv_format: 0, sample_desc_count: 1,
        sample_desc_quality: 0,
    }
}

#[test]
fn create_device_has_one_node() {
    let (heap, dev) = setup();
    let d = device_data(&heap, dev);
    assert_eq!(d.node_count, 1);
    assert_eq!(d.command_queue_count, 0);
    assert_eq!(heap.type_id(dev), Some(TYPE_D3D12_DEVICE));
    let mut heap2 = ComHeap::new();
    assert_eq!(d3d12_create_device(&mut heap2, ComPtr::null(), 0, None, None), E_INVALIDARG);
    assert!(!heap2.is_live(ComPtr { addr: 1 }));
}

#[test]
fn command_queue_takes_list_type_and_is_counted() {
    let (mut heap, dev) = setup();
    let desc = D3d12CommandQueueDesc { list_type: D3d12CommandListType::Compute.value(), priority: 0, flags: 0, node_mask: 0 };
    let mut q = ComPtr::null();
    assert_eq!(create_command_queue(&mut heap, dev, Some(&desc), None, Some(&mut q)), S_OK);
    let qd = queue_data(&heap, q);
    assert_eq!(qd.list_type, 2);
    assert_eq!(qd.device, dev);
    assert_eq!(qd.executed_lists, 0);
    assert_eq!(heap.type_id(q), Some(TYPE_D3D12_COMMAND_QUEUE));
    assert_eq!(heap.vtbl(q).unwrap().interface, Some(iid_id3d12commandqueue()));
    assert_eq!(device_data(&heap, dev).command_queue_count, 1);
    let mut q2 = ComPtr { addr: 9 };
    assert_eq!(create_command_queue(&mut heap, dev, None, None, Some(&mut q2)), E_INVALIDARG);
    assert_eq!(q2.addr, 9);
    assert_eq!(device_data(&heap, dev).command_queue_count, 1);
}

#[test]
fn pipeline_state_and_root_signature_are_counted() {
    let (mut heap, dev) = setup();
    let mut pso = ComPtr::null();
    assert_eq!(create_graphics_pipeline_state(&mut heap, dev, Some(&pso_desc()), None, Some(&mut pso)), S_OK);
    assert_eq!(heap.type_id(pso), Some(0));
    let blob = [1u8, 2, 3];
    let mut rs = ComPtr::null();
    assert_eq!(create_root_signature(&mut heap, dev, 0, Some(&blob[..]), 3, None, Some(&mut rs)), S_OK);
    assert_eq!(create_root_signature(&mut heap, dev, 0, None, 0, None, Some(&mut rs)), S_OK);
    let d = device_data(&heap, dev);
    assert_eq!(d.pso_count, 1);
    assert_eq!(d.root_sig_count, 2);
    assert_eq!(create_graphics_pipeline_state(&mut heap, ComPtr::null(), Some(&pso_desc()), None, Some(&mut pso)), E_INVALIDARG);
    assert_eq!(create_root_signature(&mut heap, dev, 0, None, 0, None, None), E_INVALIDARG);
}

#[test]
fn execute_counts_add_up() {
    let (mut heap, dev) = setup();
    let desc = D3d12CommandQueueDesc { list_type: 0, priority: 0, flags: 0, node_mask: 0 };
    let mut q = ComPtr::null();
    create_command_queue(&mut heap, dev, Some(&desc), None, Some(&mut q));
    execute_command_lists(&mut heap, q, 2, None);
    execute_command_lists(&mut heap, q, 3, None);
    assert_eq!(queue_data(&heap, q).executed_lists, 5);
    execute_command_lists(&mut heap, ComPtr::null(), 3, None);
    assert_eq!(queue_data(&heap, q).executed_lists, 5);
}

#[test]
fn draws_count_on_command_list() {
    let (mut heap, dev) = setup();
    let data = D3d12CommandListData { device: dev, list_type: 0, recording: true, pipeline_state: 0, root_signature: 0, draw_calls: 0, dispatches: 0 };
    let cl = create_com_object_with_data(&mut heap, TYPE_D3D12_COMMAND_LIST, d3d12_cmdlist_vtbl(), ImplData::D3d12CommandList(data));
    draw_instanced(&mut heap, cl, 3, 1, 0, 0);
    draw_indexed_instanced(&mut heap, cl, 6, 2, 0, 0, 0);
    assert_eq!(cmdlist_data(&heap, cl).draw_calls, 2);
    draw_instanced(&mut heap, ComPtr::null(), 3, 1, 0, 0);
    assert_eq!(cmdlist_data(&heap, cl).draw_calls, 2);
}

#[test]
fn d3d12_enum_values() {
    assert_eq!(D3d12CommandListType::Direct.value(), 0);
    assert_eq!(D3d12CommandListType::Copy.value(), 3);
    assert_eq!(D3d12PrimitiveTopologyType::Undefined.value(), 0);
    assert_eq!(D3d12PrimitiveTopologyType::Patch.value(), 4);
}
