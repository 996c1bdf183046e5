//! Model of the shared execution engine and its loaded guest modules.
//!
//! One engine instance runs per function-instance process.  A module is
//! opaque guest code; what the host driver reads and writes is the module's
//! byte-addressable memory and the set of exports the driver may call, and
//! exactly that is modelled here.  Exclusive access to the engine — in the
//! source of this layer a process-wide lock — is an explicit `&mut Engine`
//! borrow, so serialisation of cross-module operations holds by
//! construction.
//!
//! The guest allocator exports are modelled as bump allocation at the end
//! of a module's memory: `allocate` returns the old length and grows the
//! memory, `deallocate` releases exactly that growth.  What guest code does
//! when one of its exports runs is the engine's business, not this crate's;
//! callers hand in the result such a call produced.

use vstd::prelude::*;

verus! {

/// Which of the conventional exports a module offers.  Checked before a
/// cross-module operation touches anything, so a missing export is an
/// early configuration error, never a half-done transfer.
#[derive(Clone, Copy, Debug, PartialEq, Eq, Structural)]
pub struct ExportSet {
    /// `allocate() -> addr` on a transfer-target module.
    pub allocate: bool,
    /// `process_data()` on a transfer-target module.
    pub process_data: bool,
    /// `allocate_memory(len) -> addr` on the distinguished main module.
    pub allocate_memory: bool,
    /// `start(addr, len) -> i64` on the distinguished main module.
    pub start: bool,
    /// `deallocate_memory(addr)` on the distinguished main module.
    pub deallocate_memory: bool,
}

/// One module loaded in the engine, as the host driver sees it.
pub struct GuestModule {
    pub name: Vec<u8>,
    pub memory: Vec<u8>,
    pub exports: ExportSet,
}

/// The shared execution engine: its loaded, named modules.
pub struct Engine {
    pub modules: Vec<GuestModule>,
}

/// How an engine operation fails.  Every failure signals a packaging or
/// configuration defect and is fatal to the operation, never retried.
#[derive(Clone, Copy, Debug, PartialEq, Eq, Structural)]
pub enum EngineError {
    /// No module of the requested name is loaded.
    ModuleNotFound,
    /// The module lacks a conventional export the operation must call.
    ExportNotFound,
    /// A memory read, write or growth does not fit the module's memory.
    MemoryOutOfBounds,
}

/// The name of the distinguished main module, `"main"`.
pub open spec fn spec_main_module_name() -> Seq<u8> {
    seq![109u8, 97u8, 105u8, 110u8]
}

/// The byte string `"main"`.
pub fn main_module_name() -> (r: Vec<u8>)
    ensures
        r@ == spec_main_module_name(),
{
    let mut r: Vec<u8> = Vec::new();
    r.push(109);
    r.push(97);
    r.push(105);
    r.push(110);
    proof {
        assert(r@ =~= spec_main_module_name());
    }
    r
}

/// `i` is the index of the first module named `name`.
pub open spec fn spec_is_first_named(ms: Seq<GuestModule>, name: Seq<u8>, i: int) -> bool {
    &&& 0 <= i < ms.len()
    &&& ms[i].name@ == name
    &&& forall|j: int| 0 <= j < i ==> ms[j].name@ != name
}

/// Some module of the engine bears `name`.
pub open spec fn spec_has_named(ms: Seq<GuestModule>, name: Seq<u8>) -> bool {
    exists|i: int| 0 <= i < ms.len() && ms[i].name@ == name
}

/// At most one index is the first bearer of a name.
pub proof fn lemma_first_named_unique(ms: Seq<GuestModule>, name: Seq<u8>, i: int, j: int)
    requires
        spec_is_first_named(ms, name, i),
        spec_is_first_named(ms, name, j),
    ensures
        i == j,
{
    if i < j {
        assert(ms[i].name@ != name);
    }
    if j < i {
        assert(ms[j].name@ != name);
    }
}

/// Whenever a name is borne at all, some index is its first bearer.
pub proof fn lemma_has_named_first(ms: Seq<GuestModule>, name: Seq<u8>)
    requires
        spec_has_named(ms, name),
    ensures
        exists|i: int| spec_is_first_named(ms, name, i),
    decreases ms.len(),
{
    if ms[0].name@ == name {
        assert(spec_is_first_named(ms, name, 0));
    } else {
        let w = choose|i: int| 0 <= i < ms.len() && ms[i].name@ == name;
        let sub = ms.drop_first();
        assert(forall|i: int| 0 <= i < sub.len() ==> sub[i] == ms[i + 1]);
        assert(0 <= w - 1 < sub.len() && sub[w - 1].name@ == name);
        lemma_has_named_first(sub, name);
        let i = choose|i: int| spec_is_first_named(sub, name, i);
        assert(forall|j: int| 1 <= j < i + 1 ==> ms[j] == sub[j - 1]);
        assert(spec_is_first_named(ms, name, i + 1));
    }
}

/// Two modules agree in everything the host driver can see.
pub open spec fn spec_module_eq(x: GuestModule, y: GuestModule) -> bool {
    &&& x.name@ == y.name@
    &&& x.memory@ == y.memory@
    &&& x.exports == y.exports
}

/// Two engines agree module for module.
pub open spec fn spec_modules_eq(a: Seq<GuestModule>, b: Seq<GuestModule>) -> bool {
    &&& a.len() == b.len()
    &&& forall|k: int| 0 <= k < a.len() ==> spec_module_eq(a[k], b[k])
}

/// Module lookup by name, first match winning, as the engine's own
/// registry resolves names.
pub fn named_module_index(modules: &Vec<GuestModule>, name: &Vec<u8>) -> (r: Option<usize>)
    ensures
        r matches Some(i) ==> spec_is_first_named(modules@, name@, i as int),
        r is None ==> !spec_has_named(modules@, name@),
{
    let mut i: usize = 0;
    while i < modules.len()
        invariant
            i <= modules@.len(),
            forall|j: int| 0 <= j < i ==> modules@[j].name@ != name@,
        decreases modules@.len() - i,
    {
        if crate::bytestr::bytes_eq(&modules[i].name, name) {
            return Some(i);
        }
        i = i + 1;
    }
    None
}

/// Reads `len` bytes of a module's memory starting at `address`; a read
/// past the end of memory fails and reads nothing.
pub fn read_memory(m: &GuestModule, address: usize, len: usize) -> (r: Result<
    Vec<u8>,
    EngineError,
>)
    ensures
        r is Ok <==> address + len <= m.memory@.len(),
        r matches Ok(p) ==> p@ == m.memory@.subrange(address as int, address + len),
        r matches Err(e) ==> e is MemoryOutOfBounds,
{
    if address <= m.memory.len() && len <= m.memory.len() - address {
        Ok(crate::bytestr::copy_range(&m.memory, address, len))
    } else {
        Err(EngineError::MemoryOutOfBounds)
    }
}

/// Writes `data` into a module's memory at `address`, exactly in bounds or
/// not at all.
pub fn write_memory_host(m: &mut GuestModule, address: usize, data: &Vec<u8>) -> (r: Result<
    (),
    EngineError,
>)
    ensures
        r is Ok <==> address + data@.len() <= old(m).memory@.len(),
        final(m).name@ == old(m).name@,
        final(m).exports == old(m).exports,
        final(m).memory@.len() == old(m).memory@.len(),
        r is Ok ==> forall|k: int|
            0 <= k < old(m).memory@.len() ==> final(m).memory@[k] == (if address <= k < address
                + data@.len() {
                data@[k - address]
            } else {
                old(m).memory@[k]
            }),
        r is Err ==> *final(m) == *old(m),
        r matches Err(e) ==> e is MemoryOutOfBounds,
{
    if address <= m.memory.len() && data.len() <= m.memory.len() - address {
        let mut j: usize = 0;
        while j < data.len()
            invariant
                j <= data@.len(),
                address + data@.len() <= m.memory@.len(),
                m.name@ == old(m).name@,
                m.exports == old(m).exports,
                m.memory@.len() == old(m).memory@.len(),
                forall|k: int|
                    0 <= k < m.memory@.len() ==> m.memory@[k] == (if address <= k < address + j {
                        data@[k - address]
                    } else {
                        old(m).memory@[k]
                    }),
            decreases data@.len() - j,
        {
            let n = m.memory.len();
            proof {
                assert(address + j < n);
            }
            m.memory.set(address + j, data[j]);
            j = j + 1;
        }
        Ok(())
    } else {
        Err(EngineError::MemoryOutOfBounds)
    }
}

/// Models the guest allocator exports: reserves `len` fresh zeroed bytes at
/// the end of the module's memory and returns their address.
pub fn allocate(m: &mut GuestModule, len: usize) -> (r: Result<usize, EngineError>)
    ensures
        r is Ok <==> old(m).memory@.len() + len <= usize::MAX,
        r matches Ok(addr) ==> {
            &&& addr == old(m).memory@.len()
            &&& final(m).memory@ == old(m).memory@ + Seq::new(len as nat, |i: int| 0u8)
        },
        r is Err ==> *final(m) == *old(m),
        r matches Err(e) ==> e is MemoryOutOfBounds,
        final(m).name@ == old(m).name@,
        final(m).exports == old(m).exports,
{
    if len > usize::MAX - m.memory.len() {
        return Err(EngineError::MemoryOutOfBounds);
    }
    let addr = m.memory.len();
    let mut j: usize = 0;
    while j < len
        invariant
            j <= len,
            m.name@ == old(m).name@,
            m.exports == old(m).exports,
            m.memory@ =~= old(m).memory@ + Seq::new(j as nat, |i: int| 0u8),
        decreases len - j,
    {
        m.memory.push(0);
        proof {
            assert(m.memory@ =~= old(m).memory@ + Seq::new(j as nat + 1, |i: int| 0u8));
        }
        j = j + 1;
    }
    Ok(addr)
}

/// Models the guest deallocator exports: releases the bump allocation that
/// starts at `addr`, shrinking memory back to it.
pub fn deallocate(m: &mut GuestModule, addr: usize)
    requires
        addr <= old(m).memory@.len(),
    ensures
        final(m).memory@ == old(m).memory@.take(addr as int),
        final(m).name@ == old(m).name@,
        final(m).exports == old(m).exports,
{
    m.memory.truncate(addr);
}

} // verus!
