//! COM (Component Object Model) infrastructure.
//!
//! Objects live in a `ComHeap`: a table of slots addressed by `ComPtr`.
//! Address 0 is the null pointer and never holds an object; a released
//! object leaves its slot empty for good, so an address is never reused.
//! Each object carries its interface table, its reference count, a type tag
//! and its implementation data. The heap counts its live objects.

use vstd::prelude::*;
use core::cmp::Ordering;
use vstd::std_specs::cmp::PartialOrdSpecImpl;
use crate::d3d9::{D3d9Data, D3d9DeviceData};
use crate::d3d11::{D3d11DeviceData, D3d11ContextData};
use crate::d3d12::{D3d12DeviceData, D3d12CommandQueueData, D3d12CommandListData};
use crate::dxgi::{DxgiFactoryData, DxgiAdapterData, DxgiSwapChainData};

verus! {

// =============================================================================
// GUID
// =============================================================================

/// GUID (Globally Unique Identifier), with the layout of a Windows GUID.
#[derive(Clone, Copy, Debug, Eq, Ord)]
pub struct Guid {
    pub data1: u32,
    pub data2: u16,
    pub data3: u16,
    pub data4: [u8; 8],
}

impl PartialEq for Guid {
    fn eq(&self, other: &Guid) -> (r: bool) {
        guid_eq(self, other)
    }
}

impl vstd::std_specs::cmp::PartialEqSpecImpl for Guid {
    open spec fn obeys_eq_spec() -> bool {
        true
    }

    open spec fn eq_spec(&self, other: &Guid) -> bool {
        *self == *other
    }
}

/// Lexicographic order of two byte sequences from position `i` on.
pub open spec fn bytes_ordering(a: Seq<u8>, b: Seq<u8>, i: int) -> Ordering
    decreases 8 - i,
{
    if i < 0 || i >= 8 || i >= a.len() || i >= b.len() {
        Ordering::Equal
    } else if a[i] < b[i] {
        Ordering::Less
    } else if a[i] > b[i] {
        Ordering::Greater
    } else {
        bytes_ordering(a, b, i + 1)
    }
}

/// An index as a mathematical integer.
pub open spec fn index_int(i: usize) -> int {
    i as int
}

/// The order of GUIDs: by `data1`, then `data2`, then `data3`, then the
/// bytes of `data4` in turn.
pub open spec fn guid_ordering(a: Guid, b: Guid) -> Ordering {
    if a.data1 < b.data1 {
        Ordering::Less
    } else if a.data1 > b.data1 {
        Ordering::Greater
    } else if a.data2 < b.data2 {
        Ordering::Less
    } else if a.data2 > b.data2 {
        Ordering::Greater
    } else if a.data3 < b.data3 {
        Ordering::Less
    } else if a.data3 > b.data3 {
        Ordering::Greater
    } else {
        bytes_ordering(a.data4@, b.data4@, 0)
    }
}

impl PartialOrd for Guid {
    fn partial_cmp(&self, other: &Guid) -> (r: Option<Ordering>) {
        Some(guid_compare(self, other))
    }
}

impl PartialOrdSpecImpl for Guid {
    open spec fn obeys_partial_cmp_spec() -> bool {
        true
    }

    open spec fn partial_cmp_spec(&self, other: &Guid) -> Option<Ordering> {
        Some(guid_ordering(*self, *other))
    }
}

/// Compare two GUIDs in the order of `guid_ordering`.
pub fn guid_compare(a: &Guid, b: &Guid) -> (r: Ordering)
    ensures
        r == guid_ordering(*a, *b),
{
    if a.data1 < b.data1 {
        return Ordering::Less;
    } else if a.data1 > b.data1 {
        return Ordering::Greater;
    } else if a.data2 < b.data2 {
        return Ordering::Less;
    } else if a.data2 > b.data2 {
        return Ordering::Greater;
    } else if a.data3 < b.data3 {
        return Ordering::Less;
    } else if a.data3 > b.data3 {
        return Ordering::Greater;
    }
    let mut i: usize = 0;
    while i < 8
        invariant
            i <= 8,
            a.data1 == b.data1 && a.data2 == b.data2 && a.data3 == b.data3,
            bytes_ordering(a.data4@, b.data4@, 0) == bytes_ordering(a.data4@, b.data4@, index_int(i)),
        decreases 8 - i,
    {
        if a.data4[i] < b.data4[i] {
            return Ordering::Less;
        } else if a.data4[i] > b.data4[i] {
            return Ordering::Greater;
        }
        i = i + 1;
    }
    Ordering::Equal
}

impl Guid {
    /// The all-zero GUID.
    pub fn zero() -> (g: Guid)
        ensures
            g.data1 == 0 && g.data2 == 0 && g.data3 == 0,
            g.data4@ == seq![0u8, 0, 0, 0, 0, 0, 0, 0],
    {
        Guid { data1: 0, data2: 0, data3: 0, data4: [0u8; 8] }
    }
}

/// The GUID whose fields are the given values.
pub open spec fn guid_of(data1: u32, data2: u16, data3: u16, data4: [u8; 8]) -> Guid {
    Guid { data1, data2, data3, data4 }
}

pub open spec fn spec_iid_iunknown() -> Guid {
    guid_of(0x00000000, 0x0000, 0x0000, [0xC0, 0x00, 0x00, 0x00, 0x00, 0x00, 0x00, 0x46])
}

/// IID_IUnknown: {00000000-0000-0000-C000-000000000046}
#[verifier::when_used_as_spec(spec_iid_iunknown)]
pub fn iid_iunknown() -> (g: Guid)
    ensures
        g == spec_iid_iunknown(),
{
    Guid {
        data1: 0x00000000,
        data2: 0x0000,
        data3: 0x0000,
        data4: [0xC0, 0x00, 0x00, 0x00, 0x00, 0x00, 0x00, 0x46],
    }
}

/// Compare two GUIDs for equality.
pub fn guid_eq(a: &Guid, b: &Guid) -> (r: bool)
    ensures
        r == (*a == *b),
{
    if a.data1 != b.data1 || a.data2 != b.data2 || a.data3 != b.data3 {
        return false;
    }
    let mut i: usize = 0;
    while i < 8
        invariant
            i <= 8,
            forall|j: int| 0 <= j < i ==> a.data4[j] == b.data4[j],
        decreases 8 - i,
    {
        if a.data4[i] != b.data4[i] {
            return false;
        }
        i = i + 1;
    }
    assert(a.data4 =~= b.data4);
    true
}

/// The hexadecimal digits, upper case.
pub open spec fn hex_digits() -> Seq<char> {
    seq!['0', '1', '2', '3', '4', '5', '6', '7', '8', '9', 'A', 'B', 'C', 'D', 'E', 'F']
}

/// The last `width` hexadecimal digits of `v`, upper case, most significant
/// first (zero-padded to `width` digits where `v < 16^width`).
pub open spec fn hex_string(v: nat, width: nat) -> Seq<char>
    decreases width,
{
    if width == 0 {
        Seq::empty()
    } else {
        hex_string(v / 16, (width - 1) as nat).push(hex_digits()[(v % 16) as int])
    }
}

/// `{XXXXXXXX-XXXX-XXXX-XXXX-XXXXXXXXXXXX}`, upper-case hexadecimal.
pub open spec fn guid_string(g: Guid) -> Seq<char> {
    seq!['{'] + hex_string(g.data1 as nat, 8) + seq!['-'] + hex_string(g.data2 as nat, 4) + seq!['-']
        + hex_string(g.data3 as nat, 4) + seq!['-'] + hex_string(g.data4[0] as nat, 2)
        + hex_string(g.data4[1] as nat, 2) + seq!['-'] + hex_string(g.data4[2] as nat, 2)
        + hex_string(g.data4[3] as nat, 2) + hex_string(g.data4[4] as nat, 2)
        + hex_string(g.data4[5] as nat, 2) + hex_string(g.data4[6] as nat, 2)
        + hex_string(g.data4[7] as nat, 2) + seq!['}']
}

fn hex_digit_str(n: u64) -> (s: &'static str)
    requires
        n < 16,
    ensures
        s@ == seq![hex_digits()[n as int]],
{
    proof {
        reveal_strlit("0"); reveal_strlit("1"); reveal_strlit("2"); reveal_strlit("3");
        reveal_strlit("4"); reveal_strlit("5"); reveal_strlit("6"); reveal_strlit("7");
        reveal_strlit("8"); reveal_strlit("9"); reveal_strlit("A"); reveal_strlit("B");
        reveal_strlit("C"); reveal_strlit("D"); reveal_strlit("E"); reveal_strlit("F");
    }
    if n == 0 { "0" } else if n == 1 { "1" } else if n == 2 { "2" } else if n == 3 { "3" }
    else if n == 4 { "4" } else if n == 5 { "5" } else if n == 6 { "6" } else if n == 7 { "7" }
    else if n == 8 { "8" } else if n == 9 { "9" } else if n == 10 { "A" } else if n == 11 { "B" }
    else if n == 12 { "C" } else if n == 13 { "D" } else if n == 14 { "E" } else { "F" }
}

fn append_hex(out: &mut String, v: u64, width: u64)
    ensures
        final(out)@ == old(out)@ + hex_string(v as nat, width as nat),
    decreases width,
{
    if width == 0 {
        assert(old(out)@ + hex_string(v as nat, 0) =~= old(out)@);
        return;
    }
    append_hex(out, v / 16, width - 1);
    out.append(hex_digit_str(v % 16));
    assert(final(out)@ =~= old(out)@ + hex_string(v as nat, width as nat));
}

/// Format a GUID as a string: `{XXXXXXXX-XXXX-XXXX-XXXX-XXXXXXXXXXXX}`.
pub fn guid_to_string(g: &Guid) -> (s: String)
    ensures
        s@ == guid_string(*g),
{
    proof {
        reveal_strlit("{");
        reveal_strlit("-");
        reveal_strlit("}");
    }
    let mut s = String::new();
    s.append("{");
    append_hex(&mut s, g.data1 as u64, 8);
    s.append("-");
    append_hex(&mut s, g.data2 as u64, 4);
    s.append("-");
    append_hex(&mut s, g.data3 as u64, 4);
    s.append("-");
    append_hex(&mut s, g.data4[0] as u64, 2);
    append_hex(&mut s, g.data4[1] as u64, 2);
    s.append("-");
    append_hex(&mut s, g.data4[2] as u64, 2);
    append_hex(&mut s, g.data4[3] as u64, 2);
    append_hex(&mut s, g.data4[4] as u64, 2);
    append_hex(&mut s, g.data4[5] as u64, 2);
    append_hex(&mut s, g.data4[6] as u64, 2);
    append_hex(&mut s, g.data4[7] as u64, 2);
    s.append("}");
    assert(s@ =~= guid_string(*g));
    s
}

// =============================================================================
// HRESULT
// =============================================================================

/// HRESULT type.
pub type HResult = i32;

pub const S_OK: HResult = 0;
pub const S_FALSE: HResult = 1;
/// 0x80004002
pub const E_NOINTERFACE: HResult = -2147467262;
/// 0x80004003
pub const E_POINTER: HResult = -2147467261;
/// 0x8007000E
pub const E_OUTOFMEMORY: HResult = -2147024882;
/// 0x80070057
pub const E_INVALIDARG: HResult = -2147024809;
/// 0x80004005
pub const E_FAIL: HResult = -2147467259;
/// 0x80004001
pub const E_NOTIMPL: HResult = -2147467263;
/// 0x887A0002
pub const DXGI_ERROR_NOT_FOUND: HResult = -2005270526;
/// 0x887A0005
pub const DXGI_ERROR_DEVICE_REMOVED: HResult = -2005270523;
/// 0x8876086C
pub const D3DERR_INVALIDCALL: HResult = -2005530516;

// =============================================================================
// Objects
// =============================================================================

/// The address of a COM object in a `ComHeap`; address 0 is null.
#[derive(Clone, Copy, Debug, PartialEq, Eq, Structural)]
pub struct ComPtr {
    pub addr: usize,
}

impl ComPtr {
    /// The null pointer.
    pub fn null() -> (p: ComPtr)
        ensures
            p.addr == 0,
    {
        ComPtr { addr: 0 }
    }

    /// Whether this is the null pointer.
    pub fn is_null(&self) -> (b: bool)
        ensures
            b == (self.addr == 0),
    {
        self.addr == 0
    }
}

/// IUnknown virtual function table.
///
/// Every interface table answers AddRef and Release in the same way; they
/// differ in the interface that QueryInterface grants besides IUnknown.
#[derive(Clone, Copy, Debug)]
pub struct IUnknownVtbl {
    /// The interface granted besides IUnknown, if any.
    pub interface: Option<Guid>,
}

pub open spec fn spec_default_iunknown_vtbl() -> IUnknownVtbl {
    IUnknownVtbl { interface: None }
}

/// The default IUnknown table: QueryInterface grants only IUnknown.
#[verifier::when_used_as_spec(spec_default_iunknown_vtbl)]
pub fn default_iunknown_vtbl() -> (v: IUnknownVtbl)
    ensures
        v == spec_default_iunknown_vtbl(),
{
    IUnknownVtbl { interface: None }
}

/// Implementation data attached to a COM object.
pub enum ImplData {
    D3d9(D3d9Data),
    D3d9Device(D3d9DeviceData),
    D3d11Device(D3d11DeviceData),
    D3d11Context(D3d11ContextData),
    D3d12Device(D3d12DeviceData),
    D3d12CommandQueue(D3d12CommandQueueData),
    D3d12CommandList(D3d12CommandListData),
    DxgiFactory(DxgiFactoryData),
    DxgiAdapter(DxgiAdapterData),
    DxgiSwapChain(DxgiSwapChainData),
}

/// Base record of every COM object.
pub struct ComBase {
    pub vtbl: IUnknownVtbl,
    pub ref_count: u32,
    /// Object type tag for internal dispatch.
    pub type_id: u32,
    /// The implementation data (type-specific), if the object has any.
    pub impl_data: Option<ImplData>,
}

/// Type IDs for COM objects.
pub const TYPE_DXGI_FACTORY: u32 = 1;
pub const TYPE_DXGI_ADAPTER: u32 = 2;
pub const TYPE_DXGI_SWAPCHAIN: u32 = 3;
pub const TYPE_D3D9: u32 = 10;
pub const TYPE_D3D9_DEVICE: u32 = 11;
pub const TYPE_D3D9_VERTEX_BUFFER: u32 = 12;
pub const TYPE_D3D9_TEXTURE: u32 = 13;
pub const TYPE_D3D11_DEVICE: u32 = 20;
pub const TYPE_D3D11_CONTEXT: u32 = 21;
pub const TYPE_D3D11_BUFFER: u32 = 22;
pub const TYPE_D3D11_TEXTURE2D: u32 = 23;
pub const TYPE_D3D12_DEVICE: u32 = 30;
pub const TYPE_D3D12_COMMAND_QUEUE: u32 = 31;
pub const TYPE_D3D12_COMMAND_LIST: u32 = 32;

// =============================================================================
// The live-object counter (a spin lock around a u64)
// =============================================================================

/// `spin::mutex::Mutex`, carried opaquely.
#[verifier::external_type_specification]
#[verifier::external_body]
#[verifier::reject_recursive_types(T)]
#[verifier::reject_recursive_types(R)]
pub struct ExSpinMutex<T: ?Sized, R>(spin::mutex::Mutex<T, R>);

/// `spin::relax::Spin`, the default relax strategy of `spin::Mutex`.
#[verifier::external_type_specification]
#[verifier::external_body]
pub struct ExSpinRelax(spin::relax::Spin);

/// The value that a `spin::Mutex<u64>` holds.
pub uninterp spec fn mutex_value(m: spin::Mutex<u64>) -> u64;

/// `spin::Mutex::new`: the new mutex holds `v`.
#[verifier::external_body]
fn counter_new(v: u64) -> (m: spin::Mutex<u64>)
    ensures
        mutex_value(m) == v,
{
    spin::Mutex::new(v)
}

/// Stores through `spin::Mutex::lock`: afterwards the mutex holds `v`.
/// The mutex is borrowed exclusively, so no guard is outstanding and the
/// lock is taken at once.
#[verifier::external_body]
fn counter_store(m: &mut spin::Mutex<u64>, v: u64)
    ensures
        mutex_value(*final(m)) == v,
{
    *m.lock() = v;
}

/// Reads through `spin::Mutex::lock`: the value the mutex holds.
/// Writes happen only through `counter_store`, which needs the mutex
/// exclusively, and no guard outlives these two calls.
#[verifier::external_body]
fn counter_load(m: &spin::Mutex<u64>) -> (v: u64)
    ensures
        v == mutex_value(*m),
{
    *m.lock()
}

// =============================================================================
// The object heap
// =============================================================================

/// The contents of a heap: slot `a` holds the object at address `a`.
pub type HeapView = Seq<Option<ComBase>>;

/// A heap is well formed when slot 0 (null) is empty and every live object
/// holds at least one reference.
pub open spec fn heap_wf(s: HeapView) -> bool {
    &&& 1 <= s.len() <= usize::MAX
    &&& s[0] is None
    &&& forall|i: int| 0 <= i < s.len() && (#[trigger] s[i]) is Some ==> s[i]->0.ref_count >= 1
}

/// The number of live objects in a heap.
pub open spec fn live_slots(s: HeapView) -> nat
    decreases s.len(),
{
    if s.len() == 0 {
        0
    } else {
        live_slots(s.drop_last()) + (if s.last() is Some { 1nat } else { 0nat })
    }
}

/// Pushing a slot adds one to the count where the slot holds an object.
pub proof fn lemma_live_slots_push(s: HeapView, x: Option<ComBase>)
    ensures
        live_slots(s.push(x)) == live_slots(s) + (if x is Some { 1nat } else { 0nat }),
{
    assert(s.push(x).drop_last() =~= s);
}

/// Replacing slot `i` changes the count by what leaves and what enters.
pub proof fn lemma_live_slots_update(s: HeapView, i: int, x: Option<ComBase>)
    requires
        0 <= i < s.len(),
    ensures
        live_slots(s.update(i, x)) + (if s[i] is Some { 1int } else { 0int })
            == live_slots(s) + (if x is Some { 1int } else { 0int }),
    decreases s.len(),
{
    if i == s.len() - 1 {
        assert(s.update(i, x).drop_last() =~= s.drop_last());
    } else {
        assert(s.update(i, x).drop_last() =~= s.drop_last().update(i, x));
        lemma_live_slots_update(s.drop_last(), i, x);
    }
}

/// There are no more live objects than slots.
pub proof fn lemma_live_slots_bound(s: HeapView)
    ensures
        live_slots(s) <= s.len(),
    decreases s.len(),
{
    if s.len() > 0 {
        lemma_live_slots_bound(s.drop_last());
    }
}

/// `p` addresses a live object.
pub open spec fn is_live(s: HeapView, p: ComPtr) -> bool {
    0 < p.addr < s.len() && s[p.addr as int] is Some
}

/// `p` is null or addresses a live object.
pub open spec fn null_or_live(s: HeapView, p: ComPtr) -> bool {
    p.addr == 0 || is_live(s, p)
}

/// The object at `p`.
pub open spec fn object(s: HeapView, p: ComPtr) -> ComBase {
    s[p.addr as int]->0
}

/// The address the next created object receives.
pub open spec fn next_ptr(s: HeapView) -> ComPtr {
    ComPtr { addr: s.len() as usize }
}

/// A new object: one reference, the given table, tag and data.
pub open spec fn new_object(vtbl: IUnknownVtbl, type_id: u32, data: Option<ImplData>) -> ComBase {
    ComBase { vtbl, ref_count: 1, type_id, impl_data: data }
}

/// The heap after creating an object.
pub open spec fn with_new_object(s: HeapView, vtbl: IUnknownVtbl, type_id: u32, data: Option<ImplData>) -> HeapView {
    s.push(Some(new_object(vtbl, type_id, data)))
}

/// The heap with the object at `p` carrying reference count `n`.
pub open spec fn with_ref_count(s: HeapView, p: ComPtr, n: u32) -> HeapView {
    let o = object(s, p);
    s.update(p.addr as int, Some(ComBase { vtbl: o.vtbl, ref_count: n, type_id: o.type_id, impl_data: o.impl_data }))
}

/// The heap with the object at `p` carrying implementation data `d`.
pub open spec fn with_impl_data(s: HeapView, p: ComPtr, d: ImplData) -> HeapView {
    let o = object(s, p);
    s.update(p.addr as int, Some(ComBase { vtbl: o.vtbl, ref_count: o.ref_count, type_id: o.type_id, impl_data: Some(d) }))
}

/// The implementation data of `p`: none for null and for an object without data.
pub open spec fn impl_data_of(s: HeapView, p: ComPtr) -> Option<ImplData> {
    if p.addr == 0 {
        None
    } else {
        object(s, p).impl_data
    }
}

/// AddRef may be called on `p`: null, or live with room to count one more.
pub open spec fn can_add_ref(s: HeapView, p: ComPtr) -> bool {
    p.addr == 0 || (is_live(s, p) && object(s, p).ref_count < u32::MAX)
}

/// The heap after AddRef on `p`.
pub open spec fn after_add_ref(s: HeapView, p: ComPtr) -> HeapView {
    if p.addr == 0 {
        s
    } else {
        with_ref_count(s, p, (object(s, p).ref_count + 1) as u32)
    }
}

/// What AddRef on `p` returns: the new count, or 0 for null.
pub open spec fn add_ref_result(s: HeapView, p: ComPtr) -> u32 {
    if p.addr == 0 {
        0
    } else {
        (object(s, p).ref_count + 1) as u32
    }
}

/// The heap after Release on `p`: the last reference frees the object.
pub open spec fn after_release(s: HeapView, p: ComPtr) -> HeapView {
    if p.addr == 0 {
        s
    } else if object(s, p).ref_count == 1 {
        s.update(p.addr as int, None)
    } else {
        with_ref_count(s, p, (object(s, p).ref_count - 1) as u32)
    }
}

/// What Release on `p` returns: the remaining count, or 0 for null.
pub open spec fn release_result(s: HeapView, p: ComPtr) -> u32 {
    if p.addr == 0 {
        0
    } else {
        (object(s, p).ref_count - 1) as u32
    }
}

/// Whether QueryInterface through `vtbl` grants `iid`.
pub open spec fn grants(vtbl: IUnknownVtbl, iid: Guid) -> bool {
    iid == spec_iid_iunknown() || vtbl.interface == Some(iid)
}

/// The HRESULT of QueryInterface through the table `vtbl`.
pub open spec fn query_interface_result(vtbl: IUnknownVtbl, riid: Option<&Guid>, has_out: bool) -> HResult {
    if !has_out {
        E_POINTER
    } else if riid is None {
        E_INVALIDARG
    } else if grants(vtbl, *riid->0) {
        S_OK
    } else {
        E_NOINTERFACE
    }
}

/// The heap of COM objects, together with the live-object counter.
pub struct ComHeap {
    objects: Vec<Option<ComBase>>,
    live_objects: spin::Mutex<u64>,
}

impl View for ComHeap {
    type V = HeapView;

    closed spec fn view(&self) -> HeapView {
        self.objects@
    }
}

impl ComHeap {
    /// The value of the live-object counter.
    pub closed spec fn live_count(&self) -> u64 {
        mutex_value(self.live_objects)
    }

    /// The heap is well formed and its counter holds the number of live
    /// objects.
    pub open spec fn wf(&self) -> bool {
        &&& heap_wf(self@)
        &&& self.live_count() == live_slots(self@)
    }

    /// An empty heap, with the live-object counter at 0.
    pub fn new() -> (h: ComHeap)
        ensures
            h.wf(),
            h@ == seq![None::<ComBase>],
            h.live_count() == 0,
    {
        let mut objects: Vec<Option<ComBase>> = Vec::new();
        objects.push(None);
        proof {
            lemma_live_slots_push(Seq::empty(), None);
            assert(objects@ =~= Seq::<Option<ComBase>>::empty().push(None));
        }
        ComHeap { objects, live_objects: counter_new(0) }
    }

    /// Whether `p` addresses a live object.
    pub fn is_live(&self, p: ComPtr) -> (b: bool)
        ensures
            b == is_live(self@, p),
    {
        0 < p.addr && p.addr < self.objects.len() && self.objects[p.addr].is_some()
    }

    /// The reference count of the object at `p`, or 0 where none lives.
    pub fn ref_count(&self, p: ComPtr) -> (n: u32)
        ensures
            n == (if is_live(self@, p) { object(self@, p).ref_count } else { 0 }),
    {
        if 0 < p.addr && p.addr < self.objects.len() {
            match &self.objects[p.addr] {
                Some(o) => o.ref_count,
                None => 0,
            }
        } else {
            0
        }
    }

    /// The type tag of the object at `p`, if one lives there.
    pub fn type_id(&self, p: ComPtr) -> (t: Option<u32>)
        ensures
            t == (if is_live(self@, p) { Some(object(self@, p).type_id) } else { None::<u32> }),
    {
        if 0 < p.addr && p.addr < self.objects.len() {
            match &self.objects[p.addr] {
                Some(o) => Some(o.type_id),
                None => None,
            }
        } else {
            None
        }
    }

    /// The interface table of the object at `p`, if one lives there.
    pub fn vtbl(&self, p: ComPtr) -> (v: Option<IUnknownVtbl>)
        ensures
            v == (if is_live(self@, p) { Some(object(self@, p).vtbl) } else { None::<IUnknownVtbl> }),
    {
        if 0 < p.addr && p.addr < self.objects.len() {
            match &self.objects[p.addr] {
                Some(o) => Some(o.vtbl),
                None => None,
            }
        } else {
            None
        }
    }

    fn push_object(&mut self, o: ComBase) -> (p: ComPtr)
        requires
            old(self).wf(),
            o.ref_count >= 1,
        ensures
            final(self).wf(),
            p == next_ptr(old(self)@),
            final(self)@ == old(self)@.push(Some(o)),
    {
        let addr = self.objects.len();
        let count = counter_load(&self.live_objects);
        self.objects.push(Some(o));
        let _len = self.objects.len();
        proof {
            lemma_live_slots_push(old(self)@, Some(o));
            lemma_live_slots_bound(self@);
        }
        counter_store(&mut self.live_objects, count + 1);
        proof {
            let s = self@;
            assert forall|i: int| 0 <= i < s.len() && (#[trigger] s[i]) is Some implies s[i]->0.ref_count >= 1 by {
                if i < s.len() - 1 {
                    assert(s[i] == old(self)@[i]);
                }
            }
        }
        ComPtr { addr }
    }

    /// AddRef: one more reference to the object at `p`; returns the new
    /// count, or 0 for null.
    pub fn add_ref(&mut self, p: ComPtr) -> (n: u32)
        requires
            old(self).wf(),
            can_add_ref(old(self)@, p),
        ensures
            final(self).wf(),
            n == add_ref_result(old(self)@, p),
            final(self)@ == after_add_ref(old(self)@, p),
    {
        if p.addr == 0 {
            return 0;
        }
        let o = self.objects[p.addr].take();
        let mut n: u32 = 0;
        match o {
            Some(b) => {
                n = b.ref_count + 1;
                let nb = ComBase { vtbl: b.vtbl, ref_count: n, type_id: b.type_id, impl_data: b.impl_data };
                self.objects[p.addr] = Some(nb);
            },
            None => {},
        }
        proof {
            let s = self@;
            assert(s =~= after_add_ref(old(self)@, p));
            lemma_live_slots_update(old(self)@, p.addr as int, s[p.addr as int]);
            assert forall|i: int| 0 <= i < s.len() && (#[trigger] s[i]) is Some implies s[i]->0.ref_count >= 1 by {
                if i != p.addr {
                    assert(s[i] == old(self)@[i]);
                }
            }
        }
        n
    }

    /// Release: one reference less to the object at `p`; the last one frees
    /// the object. Returns the remaining count, or 0 for null.
    pub fn release(&mut self, p: ComPtr) -> (n: u32)
        requires
            old(self).wf(),
            null_or_live(old(self)@, p),
        ensures
            final(self).wf(),
            n == release_result(old(self)@, p),
            final(self)@ == after_release(old(self)@, p),
    {
        if p.addr == 0 {
            return 0;
        }
        let o = self.objects[p.addr].take();
        let mut n: u32 = 0;
        match o {
            Some(b) => {
                assert(b.ref_count >= 1);
                if b.ref_count == 1 {
                    n = 0;
                    proof {
                        lemma_live_slots_update(old(self)@, p.addr as int, None);
                    }
                    let count = counter_load(&self.live_objects);
                    counter_store(&mut self.live_objects, count - 1);
                } else {
                    n = b.ref_count - 1;
                    let nb = ComBase { vtbl: b.vtbl, ref_count: n, type_id: b.type_id, impl_data: b.impl_data };
                    self.objects[p.addr] = Some(nb);
                }
            },
            None => {},
        }
        proof {
            let s = self@;
            assert(s =~= after_release(old(self)@, p));
            lemma_live_slots_update(old(self)@, p.addr as int, s[p.addr as int]);
            assert forall|i: int| 0 <= i < s.len() && (#[trigger] s[i]) is Some implies s[i]->0.ref_count >= 1 by {
                if i != p.addr {
                    assert(s[i] == old(self)@[i]);
                }
            }
        }
        n
    }

    /// QueryInterface on the live object `this`, through its own table: the
    /// HRESULT, with `ppv` receiving `this` (one more reference) when `riid`
    /// is granted and null otherwise.
    pub fn query_interface(&mut self, this: ComPtr, riid: Option<&Guid>, ppv: Option<&mut ComPtr>) -> (r: HResult)
        requires
            old(self).wf(),
            is_live(old(self)@, this),
            query_interface_result(object(old(self)@, this).vtbl, riid, ppv is Some) == S_OK
                ==> object(old(self)@, this).ref_count < u32::MAX,
        ensures
            final(self).wf(),
            r == query_interface_result(object(old(self)@, this).vtbl, riid, ppv is Some),
            r == S_OK ==> final(self)@ == after_add_ref(old(self)@, this),
            r != S_OK ==> final(self)@ == old(self)@,
            ppv is Some ==> final(ppv.unwrap()).addr == (if r == S_OK { this.addr } else { 0 }),
    {
        let vtbl = self.objects[this.addr].as_ref().unwrap().vtbl;
        self.query_interface_with(vtbl, this, riid, ppv)
    }

    /// The QueryInterface function of the table `vtbl`, called with `this`
    /// (null or live): the HRESULT, with `ppv` receiving `this` (one more
    /// reference where `this` is not null) when `riid` is granted, and null
    /// otherwise. With a null `this`, a granted interface gives S_OK and a
    /// null `ppv`.
    pub fn query_interface_with(&mut self, vtbl: IUnknownVtbl, this: ComPtr, riid: Option<&Guid>, ppv: Option<&mut ComPtr>) -> (r: HResult)
        requires
            old(self).wf(),
            null_or_live(old(self)@, this),
            this.addr != 0 && query_interface_result(vtbl, riid, ppv is Some) == S_OK
                ==> object(old(self)@, this).ref_count < u32::MAX,
        ensures
            final(self).wf(),
            r == query_interface_result(vtbl, riid, ppv is Some),
            r == S_OK ==> final(self)@ == after_add_ref(old(self)@, this),
            r != S_OK ==> final(self)@ == old(self)@,
            ppv is Some ==> final(ppv.unwrap()).addr == (if r == S_OK { this.addr } else { 0 }),
    {
        match ppv {
            None => E_POINTER,
            Some(out) => {
                *out = ComPtr::null();
                match riid {
                    None => E_INVALIDARG,
                    Some(iid) => {
                        let granted = guid_eq(iid, &iid_iunknown()) || match vtbl.interface {
                            Some(g) => guid_eq(iid, &g),
                            None => false,
                        };
                        if granted {
                            *out = this;
                            self.add_ref(this);
                            S_OK
                        } else {
                            E_NOINTERFACE
                        }
                    },
                }
            },
        }
    }

    /// Replaces the implementation data of the live object at `p`.
    pub fn set_impl_data(&mut self, p: ComPtr, d: ImplData)
        requires
            old(self).wf(),
            is_live(old(self)@, p),
        ensures
            final(self).wf(),
            final(self)@ == with_impl_data(old(self)@, p, d),
    {
        let o = self.objects[p.addr].take();
        match o {
            Some(b) => {
                let nb = ComBase { vtbl: b.vtbl, ref_count: b.ref_count, type_id: b.type_id, impl_data: Some(d) };
                self.objects[p.addr] = Some(nb);
            },
            None => {},
        }
        proof {
            let s = self@;
            assert(s =~= with_impl_data(old(self)@, p, d));
            lemma_live_slots_update(old(self)@, p.addr as int, s[p.addr as int]);
            assert forall|i: int| 0 <= i < s.len() && (#[trigger] s[i]) is Some implies s[i]->0.ref_count >= 1 by {
                if i != p.addr {
                    assert(s[i] == old(self)@[i]);
                }
            }
        }
    }
}

/// Allocate a new COM object with the given interface table and no
/// implementation data.
pub fn create_com_object(heap: &mut ComHeap, type_id: u32, vtbl: IUnknownVtbl) -> (p: ComPtr)
    requires
        old(heap).wf(),
    ensures
        final(heap).wf(),
        p == next_ptr(old(heap)@),
        final(heap)@ == with_new_object(old(heap)@, vtbl, type_id, None),
{
    heap.push_object(ComBase { vtbl, ref_count: 1, type_id, impl_data: None })
}

/// Allocate a COM object with implementation data.
pub fn create_com_object_with_data(heap: &mut ComHeap, type_id: u32, vtbl: IUnknownVtbl, data: ImplData) -> (p: ComPtr)
    requires
        old(heap).wf(),
    ensures
        final(heap).wf(),
        p == next_ptr(old(heap)@),
        final(heap)@ == with_new_object(old(heap)@, vtbl, type_id, Some(data)),
{
    heap.push_object(ComBase { vtbl, ref_count: 1, type_id, impl_data: Some(data) })
}

/// The implementation data of a COM object: none for null and for an object
/// created without data.
pub fn get_impl_data(heap: &ComHeap, obj: ComPtr) -> (d: Option<&ImplData>)
    requires
        null_or_live(heap@, obj),
    ensures
        d is Some == impl_data_of(heap@, obj) is Some,
        d is Some ==> *d->0 == impl_data_of(heap@, obj)->0,
{
    if obj.addr == 0 {
        return None;
    }
    match &heap.objects[obj.addr] {
        Some(o) => match &o.impl_data {
            Some(d) => Some(d),
            None => None,
        },
        None => None,
    }
}

/// Initialize COM infrastructure: the live-object counter is set to the
/// number of live objects (0 at start-up, before any object exists).
pub fn init(heap: &mut ComHeap)
    requires
        heap_wf(old(heap)@),
    ensures
        final(heap).wf(),
        final(heap)@ == old(heap)@,
        final(heap).live_count() == live_slots(old(heap)@),
{
    let mut n: u64 = 0;
    let mut i: usize = 0;
    while i < heap.objects.len()
        invariant
            i <= heap.objects@.len(),
            heap_wf(heap@),
            n == live_slots(heap@.subrange(0, i as int)),
        decreases heap.objects@.len() - i,
    {
        proof {
            let s = heap@;
            assert(s.subrange(0, i + 1).drop_last() =~= s.subrange(0, i as int));
            lemma_live_slots_bound(s.subrange(0, i as int));
        }
        if heap.objects[i].is_some() {
            n = n + 1;
        }
        i = i + 1;
    }
    proof {
        assert(heap@.subrange(0, heap@.len() as int) =~= heap@);
    }
    counter_store(&mut heap.live_objects, n);
}

/// Get the count of live COM objects.
pub fn live_object_count(heap: &ComHeap) -> (n: u64)
    requires
        heap.wf(),
    ensures
        n == live_slots(heap@),
{
    counter_load(&heap.live_objects)
}

// =============================================================================
// Laws of the object heap
// =============================================================================

/// Every live object of a well-formed heap holds at least one reference.
pub proof fn lemma_live_object_referenced(s: HeapView, p: ComPtr)
    requires
        heap_wf(s),
        is_live(s, p),
    ensures
        object(s, p).ref_count >= 1,
{
    assert(s[p.addr as int] is Some);
}

/// AddRef followed by Release on a live object gives back the heap it
/// started from, and the Release reports the count the object had before.
pub proof fn lemma_add_ref_release_roundtrip(s: HeapView, p: ComPtr)
    requires
        heap_wf(s),
        is_live(s, p),
        object(s, p).ref_count < u32::MAX,
    ensures
        add_ref_result(s, p) == object(s, p).ref_count + 1,
        release_result(after_add_ref(s, p), p) == object(s, p).ref_count,
        after_release(after_add_ref(s, p), p) == s,
{
    lemma_live_object_referenced(s, p);
    let t = after_add_ref(s, p);
    assert(object(t, p).ref_count == object(s, p).ref_count + 1);
    assert(after_release(t, p) =~= s);
}

/// Releasing the last reference frees the object: it is no longer live, and
/// every other slot is as it was.
pub proof fn lemma_release_last_reference(s: HeapView, p: ComPtr)
    requires
        heap_wf(s),
        is_live(s, p),
        object(s, p).ref_count == 1,
    ensures
        release_result(s, p) == 0,
        !is_live(after_release(s, p), p),
        heap_wf(after_release(s, p)),
        forall|q: ComPtr| q.addr < s.len() && q.addr != p.addr ==> after_release(s, p)[q.addr as int] == #[trigger] s[q.addr as int],
{
    let t = after_release(s, p);
    assert forall|i: int| 0 <= i < t.len() && (#[trigger] t[i]) is Some implies t[i]->0.ref_count >= 1 by {
        assert(t[i] == s[i]);
    }
}

/// A created object receives an address that was never live, starts with one
/// reference, reads back exactly the data it was created with (none for
/// `create_com_object`), and leaves every other slot as it was.
pub proof fn lemma_created_object_fresh(s: HeapView, vtbl: IUnknownVtbl, type_id: u32, data: Option<ImplData>)
    requires
        heap_wf(s),
        s.len() < usize::MAX,
    ensures
        next_ptr(s).addr != 0,
        !is_live(s, next_ptr(s)),
        is_live(with_new_object(s, vtbl, type_id, data), next_ptr(s)),
        object(with_new_object(s, vtbl, type_id, data), next_ptr(s)).ref_count == 1,
        impl_data_of(with_new_object(s, vtbl, type_id, data), next_ptr(s)) == data,
        heap_wf(with_new_object(s, vtbl, type_id, data)),
        forall|q: ComPtr| q.addr < s.len() ==> #[trigger] with_new_object(s, vtbl, type_id, data)[q.addr as int] == s[q.addr as int],
{
    let t = with_new_object(s, vtbl, type_id, data);
    assert forall|i: int| 0 <= i < t.len() && (#[trigger] t[i]) is Some implies t[i]->0.ref_count >= 1 by {
        if i < s.len() {
            assert(t[i] == s[i]);
        }
    }
}

/// A freed address stays free: AddRef, Release, a change of implementation
/// data and the creation of an object never make it live again.
pub proof fn lemma_freed_address_stays_free(s: HeapView, p: ComPtr, q: ComPtr, d: ImplData, vtbl: IUnknownVtbl, type_id: u32)
    requires
        heap_wf(s),
        0 < q.addr < s.len(),
        !is_live(s, q),
    ensures
        can_add_ref(s, p) ==> !is_live(after_add_ref(s, p), q),
        null_or_live(s, p) ==> !is_live(after_release(s, p), q),
        is_live(s, p) ==> !is_live(with_impl_data(s, p, d), q),
        !is_live(with_new_object(s, vtbl, type_id, Some(d)), q),
{
}

/// QueryInterface for IUnknown succeeds through every table.
pub proof fn lemma_every_table_grants_iunknown(vtbl: IUnknownVtbl)
    ensures
        query_interface_result(vtbl, Some(&spec_iid_iunknown()), true) == S_OK,
{
}

/// QueryInterface grants exactly two interfaces: IUnknown
/// ({00000000-0000-0000-C000-000000000046}) and the one its table names. Any
/// other IID gives E_NOINTERFACE; a missing IID gives E_INVALIDARG and a
/// missing out pointer E_POINTER.
pub proof fn lemma_query_interface_grants_exactly(vtbl: IUnknownVtbl, iid: Guid, riid: Option<&Guid>)
    ensures
        query_interface_result(vtbl, Some(&iid), true) == (
            if iid == guid_of(0, 0, 0, [0xC0u8, 0, 0, 0, 0, 0, 0, 0x46]) || vtbl.interface == Some(iid) {
                0i32
            } else {
                -2147467262i32
            }),
        query_interface_result(vtbl, None, true) == -2147024809i32,
        query_interface_result(vtbl, riid, false) == -2147467261i32,
        vtbl.interface is None ==> (query_interface_result(vtbl, Some(&iid), true) == 0i32
            <==> iid == guid_of(0, 0, 0, [0xC0u8, 0, 0, 0, 0, 0, 0, 0x46])),
{
}

/// AddRef on a live object raises its count by exactly one and changes
/// nothing else; Release lowers it by exactly one, freeing the object (and
/// only it) when the count was one.
pub proof fn lemma_reference_count_steps(s: HeapView, p: ComPtr, q: ComPtr)
    requires
        heap_wf(s),
        is_live(s, p),
    ensures
        object(s, p).ref_count < u32::MAX ==> {
            &&& is_live(after_add_ref(s, p), p)
            &&& object(after_add_ref(s, p), p).ref_count == object(s, p).ref_count + 1
            &&& add_ref_result(s, p) == object(s, p).ref_count + 1
            &&& object(after_add_ref(s, p), p).vtbl == object(s, p).vtbl
            &&& object(after_add_ref(s, p), p).type_id == object(s, p).type_id
            &&& object(after_add_ref(s, p), p).impl_data == object(s, p).impl_data
            &&& after_add_ref(s, p).len() == s.len()
        },
        object(s, p).ref_count > 1 ==> {
            &&& is_live(after_release(s, p), p)
            &&& object(after_release(s, p), p).ref_count + 1 == object(s, p).ref_count
            &&& release_result(s, p) + 1 == object(s, p).ref_count
            &&& object(after_release(s, p), p).vtbl == object(s, p).vtbl
            &&& object(after_release(s, p), p).type_id == object(s, p).type_id
            &&& object(after_release(s, p), p).impl_data == object(s, p).impl_data
        },
        object(s, p).ref_count == 1 ==> !is_live(after_release(s, p), p) && release_result(s, p) == 0,
        after_release(s, p).len() == s.len(),
        q.addr != p.addr && q.addr < s.len() ==> {
            &&& after_release(s, p)[q.addr as int] == s[q.addr as int]
            &&& (object(s, p).ref_count < u32::MAX ==> after_add_ref(s, p)[q.addr as int] == s[q.addr as int])
        },
{
    lemma_live_object_referenced(s, p);
}

/// Creating an object appends it at the next address with exactly the
/// table, tag and data given and one reference.
pub proof fn lemma_create_appends(s: HeapView, vtbl: IUnknownVtbl, type_id: u32, data: Option<ImplData>)
    ensures
        with_new_object(s, vtbl, type_id, data).len() == s.len() + 1,
        with_new_object(s, vtbl, type_id, data).subrange(0, s.len() as int) == s,
        with_new_object(s, vtbl, type_id, data)[s.len() as int] == Some(ComBase { vtbl, ref_count: 1, type_id, impl_data: data }),
{
    assert(with_new_object(s, vtbl, type_id, data).subrange(0, s.len() as int) =~= s);
}

/// A change of data replaces exactly the data of that object.
pub proof fn lemma_set_data_replaces(s: HeapView, p: ComPtr, d: ImplData, q: ComPtr)
    requires
        is_live(s, p),
    ensures
        is_live(with_impl_data(s, p, d), p),
        impl_data_of(with_impl_data(s, p, d), p) == Some(d),
        object(with_impl_data(s, p, d), p).ref_count == object(s, p).ref_count,
        object(with_impl_data(s, p, d), p).vtbl == object(s, p).vtbl,
        object(with_impl_data(s, p, d), p).type_id == object(s, p).type_id,
        with_impl_data(s, p, d).len() == s.len(),
        q.addr != p.addr && q.addr < s.len() ==> with_impl_data(s, p, d)[q.addr as int] == s[q.addr as int],
{
}

/// The live-object count follows creation and destruction: a new heap has
/// none; creating an object adds one; the Release of the last reference
/// takes one away; AddRef, any other Release and a change of data leave the
/// count as it was. So after n creations and m final Releases on a new (or
/// just initialized, empty) heap, the count is n - m.
pub proof fn lemma_live_count_tracks(s: HeapView, p: ComPtr, vtbl: IUnknownVtbl, type_id: u32, data: Option<ImplData>, d: ImplData)
    requires
        heap_wf(s),
    ensures
        live_slots(seq![None::<ComBase>]) == 0,
        live_slots(with_new_object(s, vtbl, type_id, data)) == live_slots(s) + 1,
        is_live(s, p) && object(s, p).ref_count == 1 ==> live_slots(after_release(s, p)) + 1 == live_slots(s),
        is_live(s, p) && object(s, p).ref_count > 1 ==> live_slots(after_release(s, p)) == live_slots(s),
        can_add_ref(s, p) ==> live_slots(after_add_ref(s, p)) == live_slots(s),
        is_live(s, p) ==> live_slots(with_impl_data(s, p, d)) == live_slots(s),
        live_slots(s) < s.len(),
{
    lemma_live_slots_push(Seq::empty(), None);
    assert(seq![None::<ComBase>] =~= Seq::<Option<ComBase>>::empty().push(None));
    lemma_live_slots_push(s, Some(new_object(vtbl, type_id, data)));
    if is_live(s, p) {
        lemma_live_slots_update(s, p.addr as int, after_release(s, p)[p.addr as int]);
        assert(after_release(s, p) =~= s.update(p.addr as int, after_release(s, p)[p.addr as int]));
        lemma_live_slots_update(s, p.addr as int, with_impl_data(s, p, d)[p.addr as int]);
        if object(s, p).ref_count < u32::MAX {
            lemma_live_slots_update(s, p.addr as int, after_add_ref(s, p)[p.addr as int]);
        }
    }
    lemma_live_slots_first_empty(s);
}

/// One change to the heap, as the entry points make them: every entry point
/// that changes the heap does so by a run of these steps.
pub enum HeapStep {
    /// Create an object (`create_com_object`, `create_com_object_with_data`).
    Create(IUnknownVtbl, u32, Option<ImplData>),
    /// AddRef.
    AddRef(ComPtr),
    /// Release.
    Release(ComPtr),
    /// Replace an object's implementation data.
    SetData(ComPtr, ImplData),
}

/// Whether `step` may be taken on `s` (what the entry point requires).
pub open spec fn step_allowed(s: HeapView, step: HeapStep) -> bool {
    match step {
        HeapStep::Create(_, _, _) => s.len() < usize::MAX,
        HeapStep::AddRef(p) => can_add_ref(s, p),
        HeapStep::Release(p) => null_or_live(s, p),
        HeapStep::SetData(p, _) => is_live(s, p),
    }
}

/// The heap after `step`.
pub open spec fn apply_step(s: HeapView, step: HeapStep) -> HeapView {
    match step {
        HeapStep::Create(vtbl, type_id, data) => with_new_object(s, vtbl, type_id, data),
        HeapStep::AddRef(p) => after_add_ref(s, p),
        HeapStep::Release(p) => after_release(s, p),
        HeapStep::SetData(p, d) => with_impl_data(s, p, d),
    }
}

/// Whether `step` is the Release of the last reference of an object of `s`.
pub open spec fn is_final_release(s: HeapView, step: HeapStep) -> bool {
    match step {
        HeapStep::Release(p) => is_live(s, p) && object(s, p).ref_count == 1,
        _ => false,
    }
}

/// The heap after `steps`, in order.
pub open spec fn apply_steps(s: HeapView, steps: Seq<HeapStep>) -> HeapView
    decreases steps.len(),
{
    if steps.len() == 0 {
        s
    } else {
        apply_step(apply_steps(s, steps.drop_last()), steps.last())
    }
}

/// Every step of `steps` may be taken where it comes.
pub open spec fn steps_allowed(s: HeapView, steps: Seq<HeapStep>) -> bool
    decreases steps.len(),
{
    if steps.len() == 0 {
        true
    } else {
        steps_allowed(s, steps.drop_last()) && step_allowed(apply_steps(s, steps.drop_last()), steps.last())
    }
}

/// The number of creations among `steps`.
pub open spec fn creations(steps: Seq<HeapStep>) -> nat
    decreases steps.len(),
{
    if steps.len() == 0 {
        0
    } else {
        creations(steps.drop_last()) + (if steps.last() is Create { 1nat } else { 0nat })
    }
}

/// The number of final Releases among `steps`, taken from `s`.
pub open spec fn final_releases(s: HeapView, steps: Seq<HeapStep>) -> nat
    decreases steps.len(),
{
    if steps.len() == 0 {
        0
    } else {
        final_releases(s, steps.drop_last())
            + (if is_final_release(apply_steps(s, steps.drop_last()), steps.last()) { 1nat } else { 0nat })
    }
}

/// Every step keeps the heap well formed.
pub proof fn lemma_step_keeps_wf(s: HeapView, step: HeapStep)
    requires
        heap_wf(s),
        step_allowed(s, step),
    ensures
        heap_wf(apply_step(s, step)),
{
    let t = apply_step(s, step);
    match step {
        HeapStep::Create(vtbl, type_id, data) => {
            lemma_created_object_fresh(s, vtbl, type_id, data);
        },
        HeapStep::AddRef(p) => {
            if p.addr != 0 {
                assert forall|i: int| 0 <= i < t.len() && (#[trigger] t[i]) is Some implies t[i]->0.ref_count >= 1 by {
                    if i != p.addr {
                        assert(t[i] == s[i]);
                    }
                }
            }
        },
        HeapStep::Release(p) => {
            if p.addr != 0 {
                lemma_live_object_referenced(s, p);
                assert forall|i: int| 0 <= i < t.len() && (#[trigger] t[i]) is Some implies t[i]->0.ref_count >= 1 by {
                    if i != p.addr {
                        assert(t[i] == s[i]);
                    }
                }
            }
        },
        HeapStep::SetData(p, d) => {
            assert forall|i: int| 0 <= i < t.len() && (#[trigger] t[i]) is Some implies t[i]->0.ref_count >= 1 by {
                if i != p.addr {
                    assert(t[i] == s[i]);
                }
            }
        },
    }
}

/// The live-object count over a run of steps: the objects live at the end
/// are those live at the start, plus the creations, less the final
/// Releases. Since `init` sets the counter to the number of live objects and
/// every entry point keeps it so, after `init` on a heap with no live object
/// (as at start-up, or on a new heap) followed by n creations and m final
/// Releases, `live_object_count` returns n - m.
pub proof fn lemma_live_count_over_steps(s: HeapView, steps: Seq<HeapStep>)
    requires
        heap_wf(s),
        steps_allowed(s, steps),
    ensures
        heap_wf(apply_steps(s, steps)),
        live_slots(apply_steps(s, steps)) + final_releases(s, steps) == live_slots(s) + creations(steps),
        live_slots(s) == 0 ==> live_slots(apply_steps(s, steps)) == creations(steps) - final_releases(s, steps),
    decreases steps.len(),
{
    if steps.len() > 0 {
        let prefix = steps.drop_last();
        lemma_live_count_over_steps(s, prefix);
        let t = apply_steps(s, prefix);
        let step = steps.last();
        lemma_step_keeps_wf(t, step);
        // The data argument matters only for a change of data.
        let any_data: ImplData = arbitrary();
        match step {
            HeapStep::Create(vtbl, type_id, data) => {
                lemma_live_count_tracks(t, ComPtr { addr: 0 }, vtbl, type_id, data, any_data);
            },
            HeapStep::AddRef(p) => {
                lemma_live_count_tracks(t, p, spec_default_iunknown_vtbl(), 0, None, any_data);
            },
            HeapStep::Release(p) => {
                lemma_live_count_tracks(t, p, spec_default_iunknown_vtbl(), 0, None, any_data);
                if p.addr != 0 {
                    lemma_live_object_referenced(t, p);
                }
            },
            HeapStep::SetData(p, d) => {
                lemma_live_count_tracks(t, p, spec_default_iunknown_vtbl(), 0, None, d);
            },
        }
    }
}

proof fn lemma_live_slots_first_empty(s: HeapView)
    requires
        s.len() >= 1,
        s[0] is None,
    ensures
        live_slots(s) < s.len(),
    decreases s.len(),
{
    if s.len() > 1 {
        assert(s.drop_last()[0] is None);
        lemma_live_slots_first_empty(s.drop_last());
    } else {
        assert(s.last() == s[0]);
        assert(s.drop_last().len() == 0);
        assert(live_slots(s.drop_last()) == 0);
    }
    assert(live_slots(s) <= live_slots(s.drop_last()) + 1);
}

// =============================================================================
// Laws of GUID formatting
// =============================================================================

/// 16 to the power `w`.
pub open spec fn pow16(w: nat) -> nat
    decreases w,
{
    if w == 0 { 1 } else { 16 * pow16((w - 1) as nat) }
}

/// The sixteen hexadecimal digits are distinct.
proof fn lemma_hex_digits_distinct()
    ensures
        forall|j: int, k: int| 0 <= j < 16 && 0 <= k < 16 && j != k ==> hex_digits()[j] != hex_digits()[k],
{
    let h = hex_digits();
    assert(h[0] == '0' && h[1] == '1' && h[2] == '2' && h[3] == '3');
    assert(h[4] == '4' && h[5] == '5' && h[6] == '6' && h[7] == '7');
    assert(h[8] == '8' && h[9] == '9' && h[10] == 'A' && h[11] == 'B');
    assert(h[12] == 'C' && h[13] == 'D' && h[14] == 'E' && h[15] == 'F');
}

/// `hex_string(v, w)` has `w` digits.
pub proof fn lemma_hex_string_len(v: nat, w: nat)
    ensures
        hex_string(v, w).len() == w,
    decreases w,
{
    if w > 0 {
        lemma_hex_string_len(v / 16, (w - 1) as nat);
    }
}

/// Distinct values below `16^w` have distinct `w`-digit hexadecimal strings.
pub proof fn lemma_hex_string_injective(v: nat, u: nat, w: nat)
    requires
        v < pow16(w),
        u < pow16(w),
        hex_string(v, w) == hex_string(u, w),
    ensures
        v == u,
    decreases w,
{
    if w > 0 {
        let p = pow16((w - 1) as nat);
        let sv = hex_string(v, w);
        let su = hex_string(u, w);
        lemma_hex_string_len(v / 16, (w - 1) as nat);
        lemma_hex_string_len(u / 16, (w - 1) as nat);
        assert(sv.drop_last() =~= hex_string(v / 16, (w - 1) as nat));
        assert(su.drop_last() =~= hex_string(u / 16, (w - 1) as nat));
        assert(sv.last() == hex_digits()[(v % 16) as int]);
        assert(su.last() == hex_digits()[(u % 16) as int]);
        lemma_hex_digits_distinct();
        assert(v % 16 == u % 16);
        assert(v / 16 < p) by (nonlinear_arith)
            requires v < 16 * p;
        assert(u / 16 < p) by (nonlinear_arith)
            requires u < 16 * p;
        lemma_hex_string_injective(v / 16, u / 16, (w - 1) as nat);
        assert(v == 16 * (v / 16) + v % 16);
        assert(u == 16 * (u / 16) + u % 16);
    }
}

/// The formatted GUID has 38 characters, and each field stands at a fixed
/// place in it.
pub proof fn lemma_guid_string_layout(g: Guid)
    ensures
        guid_string(g).len() == 38,
        guid_string(g).subrange(1, 9) == hex_string(g.data1 as nat, 8),
        guid_string(g).subrange(10, 14) == hex_string(g.data2 as nat, 4),
        guid_string(g).subrange(15, 19) == hex_string(g.data3 as nat, 4),
        guid_string(g).subrange(20, 22) == hex_string(g.data4[0] as nat, 2),
        guid_string(g).subrange(22, 24) == hex_string(g.data4[1] as nat, 2),
        guid_string(g).subrange(25, 27) == hex_string(g.data4[2] as nat, 2),
        guid_string(g).subrange(27, 29) == hex_string(g.data4[3] as nat, 2),
        guid_string(g).subrange(29, 31) == hex_string(g.data4[4] as nat, 2),
        guid_string(g).subrange(31, 33) == hex_string(g.data4[5] as nat, 2),
        guid_string(g).subrange(33, 35) == hex_string(g.data4[6] as nat, 2),
        guid_string(g).subrange(35, 37) == hex_string(g.data4[7] as nat, 2),
{
    lemma_hex_string_len(g.data1 as nat, 8);
    lemma_hex_string_len(g.data2 as nat, 4);
    lemma_hex_string_len(g.data3 as nat, 4);
    lemma_hex_string_len(g.data4[0] as nat, 2);
    lemma_hex_string_len(g.data4[1] as nat, 2);
    lemma_hex_string_len(g.data4[2] as nat, 2);
    lemma_hex_string_len(g.data4[3] as nat, 2);
    lemma_hex_string_len(g.data4[4] as nat, 2);
    lemma_hex_string_len(g.data4[5] as nat, 2);
    lemma_hex_string_len(g.data4[6] as nat, 2);
    lemma_hex_string_len(g.data4[7] as nat, 2);
    let s = guid_string(g);
    assert(s.subrange(1, 9) =~= hex_string(g.data1 as nat, 8));
    assert(s.subrange(10, 14) =~= hex_string(g.data2 as nat, 4));
    assert(s.subrange(15, 19) =~= hex_string(g.data3 as nat, 4));
    assert(s.subrange(20, 22) =~= hex_string(g.data4[0] as nat, 2));
    assert(s.subrange(22, 24) =~= hex_string(g.data4[1] as nat, 2));
    assert(s.subrange(25, 27) =~= hex_string(g.data4[2] as nat, 2));
    assert(s.subrange(27, 29) =~= hex_string(g.data4[3] as nat, 2));
    assert(s.subrange(29, 31) =~= hex_string(g.data4[4] as nat, 2));
    assert(s.subrange(31, 33) =~= hex_string(g.data4[5] as nat, 2));
    assert(s.subrange(33, 35) =~= hex_string(g.data4[6] as nat, 2));
    assert(s.subrange(35, 37) =~= hex_string(g.data4[7] as nat, 2));
}

/// Distinct GUIDs format to distinct strings.
pub proof fn lemma_guid_string_injective(a: Guid, b: Guid)
    requires
        guid_string(a) == guid_string(b),
    ensures
        a == b,
{
    lemma_guid_string_layout(a);
    lemma_guid_string_layout(b);
    assert(pow16(0) == 1);
    assert(pow16(1) == 16);
    assert(pow16(2) == 256);
    assert(pow16(3) == 4096);
    assert(pow16(4) == 65536);
    assert(pow16(5) == 1048576);
    assert(pow16(6) == 16777216);
    assert(pow16(7) == 268435456);
    assert(pow16(8) == 4294967296);
    lemma_hex_string_injective(a.data1 as nat, b.data1 as nat, 8);
    lemma_hex_string_injective(a.data2 as nat, b.data2 as nat, 4);
    lemma_hex_string_injective(a.data3 as nat, b.data3 as nat, 4);
    lemma_hex_string_injective(a.data4[0] as nat, b.data4[0] as nat, 2);
    lemma_hex_string_injective(a.data4[1] as nat, b.data4[1] as nat, 2);
    lemma_hex_string_injective(a.data4[2] as nat, b.data4[2] as nat, 2);
    lemma_hex_string_injective(a.data4[3] as nat, b.data4[3] as nat, 2);
    lemma_hex_string_injective(a.data4[4] as nat, b.data4[4] as nat, 2);
    lemma_hex_string_injective(a.data4[5] as nat, b.data4[5] as nat, 2);
    lemma_hex_string_injective(a.data4[6] as nat, b.data4[6] as nat, 2);
    lemma_hex_string_injective(a.data4[7] as nat, b.data4[7] as nat, 2);
    assert(a.data4 =~= b.data4);
}

// =============================================================================
// Laws of GUID order
// =============================================================================

proof fn lemma_bytes_ordering(a: Seq<u8>, b: Seq<u8>, i: int)
    requires
        a.len() == 8,
        b.len() == 8,
        0 <= i <= 8,
    ensures
        (bytes_ordering(a, b, i) == Ordering::Equal) == (forall|j: int| i <= j < 8 ==> a[j] == b[j]),
        (bytes_ordering(a, b, i) == Ordering::Less) == (bytes_ordering(b, a, i) == Ordering::Greater),
    decreases 8 - i,
{
    if i < 8 {
        lemma_bytes_ordering(a, b, i + 1);
    }
}

/// GUIDs compare equal exactly when they are equal, and `a` comes before
/// `b` exactly when `b` comes after `a`.
pub proof fn lemma_guid_ordering_consistent(a: Guid, b: Guid)
    ensures
        (guid_ordering(a, b) == Ordering::Equal) == (a == b),
        (guid_ordering(a, b) == Ordering::Less) == (guid_ordering(b, a) == Ordering::Greater),
{
    lemma_bytes_ordering(a.data4@, b.data4@, 0);
    if guid_ordering(a, b) == Ordering::Equal {
        assert(a.data4 =~= b.data4);
    }
}

} // verus!
