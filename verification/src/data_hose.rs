//! Discovery of sibling function instances, and the host bridge that moves
//! request and response bytes for guest code.
//!
//! A bundle is one deployable function instance: a directory with a
//! manifest and, while the instance serves, a rendezvous socket file named
//! after the bundle root with `.sock` appended.  Discovery walks the bundle
//! tree outside this crate; what it hands in is, per candidate, the bundle
//! root, the parsed manifest (or nothing, when parsing failed) and whether
//! the socket file exists.  Resolution itself — which candidates qualify
//! and which route comes back — is decided and proved here.

use crate::bytestr::clone_bytes;
use crate::engine::{
    allocate, lemma_first_named_unique, lemma_has_named_first, main_module_name,
    named_module_index, read_memory, spec_has_named, spec_is_first_named,
    spec_main_module_name, spec_module_eq, spec_modules_eq, write_memory_host, Engine,
    EngineError,
};
use crate::oci_utils::{get_wasm_annotations, spec_annotation_value, OciSpec};
use vstd::prelude::*;

verus! {

/// One candidate found by the bundle walk: its root path, its manifest if
/// it parsed, and whether the rendezvous socket file currently exists.
pub struct BundleInfo {
    pub root: Vec<u8>,
    pub manifest: Option<OciSpec>,
    pub socket_exists: bool,
}

/// A resolved route to a sibling: where its rendezvous socket lives, what
/// the target function is called, and its network address.
#[derive(Debug)]
pub struct Route {
    pub socket_path: Vec<u8>,
    pub function_name: Vec<u8>,
    pub function_address: Vec<u8>,
}

/// The mathematical shape of a `Route`.
pub struct RouteModel {
    pub socket_path: Seq<u8>,
    pub function_name: Seq<u8>,
    pub function_address: Seq<u8>,
}

impl View for Route {
    type V = RouteModel;

    open spec fn view(&self) -> RouteModel {
        RouteModel {
            socket_path: self.socket_path@,
            function_name: self.function_name@,
            function_address: self.function_address@,
        }
    }
}

/// `s` with every path separator `/` removed.
pub open spec fn spec_strip_separators(s: Seq<u8>) -> Seq<u8>
    decreases s.len(),
{
    if s.len() == 0 {
        Seq::empty()
    } else {
        spec_strip_separators(s.drop_last()) + (if s.last() == 47u8 {
            Seq::<u8>::empty()
        } else {
            seq![s.last()]
        })
    }
}

/// Removes path separators from an annotated function name.
pub fn strip_path_separators(v: &Vec<u8>) -> (r: Vec<u8>)
    ensures
        r@ == spec_strip_separators(v@),
{
    let mut r: Vec<u8> = Vec::new();
    let mut i: usize = 0;
    proof {
        assert(v@.take(0) =~= Seq::<u8>::empty());
    }
    while i < v.len()
        invariant
            i <= v@.len(),
            r@ == spec_strip_separators(v@.take(i as int)),
        decreases v@.len() - i,
    {
        proof {
            assert(v@.take(i as int + 1).drop_last() =~= v@.take(i as int));
            assert(v@.take(i as int + 1).last() == v@[i as int]);
        }
        if v[i] != 47 {
            r.push(v[i]);
        }
        i = i + 1;
    }
    proof {
        assert(v@.take(v@.len() as int) =~= v@);
    }
    r
}

/// The suffix `".sock"` that turns a bundle root into its rendezvous
/// socket path.
pub open spec fn spec_sock_suffix() -> Seq<u8> {
    seq![46u8, 115u8, 111u8, 99u8, 107u8]
}

/// The rendezvous socket path of a bundle: its root with `".sock"`
/// appended.
pub fn socket_path_for(root: &Vec<u8>) -> (r: Vec<u8>)
    ensures
        r@ == root@ + spec_sock_suffix(),
{
    let mut r = clone_bytes(root);
    r.push(46);
    r.push(115);
    r.push(111);
    r.push(99);
    r.push(107);
    proof {
        assert(r@ =~= root@ + spec_sock_suffix());
    }
    r
}

/// The annotation key `"target.function"`.
pub open spec fn spec_target_function_key() -> Seq<u8> {
    seq![116u8, 97u8, 114u8, 103u8, 101u8, 116u8, 46u8, 102u8, 117u8, 110u8, 99u8, 116u8, 105u8, 111u8, 110u8]
}

/// The byte string `"target.function"`.
pub fn target_function_key() -> (r: Vec<u8>)
    ensures
        r@ == spec_target_function_key(),
{
    let mut r: Vec<u8> = Vec::new();
    r.push(116);
    r.push(97);
    r.push(114);
    r.push(103);
    r.push(101);
    r.push(116);
    r.push(46);
    r.push(102);
    r.push(117);
    r.push(110);
    r.push(99);
    r.push(116);
    r.push(105);
    r.push(111);
    r.push(110);
    proof {
        assert(r@ =~= spec_target_function_key());
    }
    r
}

/// The annotation key `"target.address"`.
pub open spec fn spec_target_address_key() -> Seq<u8> {
    seq![116u8, 97u8, 114u8, 103u8, 101u8, 116u8, 46u8, 97u8, 100u8, 100u8, 114u8, 101u8, 115u8, 115u8]
}

/// The byte string `"target.address"`.
pub fn target_address_key() -> (r: Vec<u8>)
    ensures
        r@ == spec_target_address_key(),
{
    let mut r: Vec<u8> = Vec::new();
    r.push(116);
    r.push(97);
    r.push(114);
    r.push(103);
    r.push(101);
    r.push(116);
    r.push(46);
    r.push(97);
    r.push(100);
    r.push(100);
    r.push(114);
    r.push(101);
    r.push(115);
    r.push(115);
    proof {
        assert(r@ =~= spec_target_address_key());
    }
    r
}

/// The annotated target function name of a bundle, separators stripped.
pub open spec fn spec_bundle_function_name(b: BundleInfo) -> Seq<u8> {
    spec_strip_separators(
        spec_annotation_value(b.manifest.unwrap().annotations@, spec_target_function_key()),
    )
}

/// The annotated target network address of a bundle.
pub open spec fn spec_bundle_function_address(b: BundleInfo) -> Seq<u8> {
    spec_annotation_value(b.manifest.unwrap().annotations@, spec_target_address_key())
}

/// A candidate qualifies exactly when its manifest parsed, both target
/// annotations are non-empty (the name after separator stripping), and its
/// rendezvous socket file exists right now.
pub open spec fn spec_qualifies(b: BundleInfo) -> bool {
    &&& b.manifest is Some
    &&& spec_bundle_function_name(b).len() > 0
    &&& spec_bundle_function_address(b).len() > 0
    &&& b.socket_exists
}

/// The route derived from a qualifying candidate.
pub open spec fn spec_route_of(b: BundleInfo) -> RouteModel {
    RouteModel {
        socket_path: b.root@ + spec_sock_suffix(),
        function_name: spec_bundle_function_name(b),
        function_address: spec_bundle_function_address(b),
    }
}

/// What discovery resolves over a walk order: the route of the first
/// qualifying candidate, or nothing when none qualifies.
pub open spec fn spec_locate(s: Seq<BundleInfo>) -> Option<RouteModel>
    decreases s.len(),
{
    if s.len() == 0 {
        None
    } else if spec_qualifies(s[0]) {
        Some(spec_route_of(s[0]))
    } else {
        spec_locate(s.drop_first())
    }
}

/// Validates one candidate and derives its route.
pub fn qualify_bundle(b: &BundleInfo) -> (r: Option<Route>)
    ensures
        r is Some <==> spec_qualifies(*b),
        r matches Some(rt) ==> rt@ == spec_route_of(*b),
{
    if !b.socket_exists {
        return None;
    }
    let m = match &b.manifest {
        Some(m) => m,
        None => {
            return None;
        },
    };
    let function_name = get_wasm_annotations(m, &target_function_key());
    let formatted_function_name = strip_path_separators(&function_name);
    if formatted_function_name.len() == 0 {
        return None;
    }
    let function_address = get_wasm_annotations(m, &target_address_key());
    if function_address.len() == 0 {
        return None;
    }
    Some(
        Route {
            socket_path: socket_path_for(&b.root),
            function_name: formatted_function_name,
            function_address,
        },
    )
}

/// Resolves a sibling's route from the candidates a bundle walk produced,
/// in walk order: the first qualifying candidate wins; a candidate whose
/// manifest did not parse, or that misses an annotation or its socket, is
/// skipped and never aborts the scan.
pub fn find_function_metadata(bundles: &Vec<BundleInfo>) -> (r: Option<Route>)
    ensures
        r is Some <==> spec_locate(bundles@) is Some,
        r matches Some(rt) ==> rt@ == spec_locate(bundles@).unwrap(),
{
    let ghost all = bundles@;
    proof {
        assert(all.skip(0) =~= all);
    }
    let mut i: usize = 0;
    while i < bundles.len()
        invariant
            i <= all.len(),
            all == bundles@,
            spec_locate(all) == spec_locate(all.skip(i as int)),
        decreases all.len() - i,
    {
        proof {
            assert(all.skip(i as int)[0] == all[i as int]);
        }
        if let Some(rt) = qualify_bundle(&bundles[i]) {
            return Some(rt);
        }
        proof {
            assert(all.skip(i as int).drop_first() =~= all.skip(i as int + 1));
        }
        i = i + 1;
    }
    proof {
        assert(all.skip(all.len() as int) =~= Seq::<BundleInfo>::empty());
    }
    None
}

/// `i` is the position of the first qualifying candidate.
pub open spec fn spec_first_qualifying(s: Seq<BundleInfo>, i: int) -> bool {
    &&& 0 <= i < s.len()
    &&& spec_qualifies(s[i])
    &&& forall|j: int| 0 <= j < i ==> !spec_qualifies(s[j])
}

/// Discovery law: over any tree of candidates, a route comes back exactly
/// when some candidate has both target annotations non-empty and its
/// socket present — and the route that comes back is derived from the
/// first such candidate in walk order.
pub proof fn lemma_locate_first_qualifying(s: Seq<BundleInfo>)
    ensures
        spec_locate(s) is Some <==> exists|i: int| 0 <= i < s.len() && spec_qualifies(s[i]),
        spec_locate(s) matches Some(rt) ==> exists|i: int|
            spec_first_qualifying(s, i) && rt == spec_route_of(s[i]),
    decreases s.len(),
{
    if s.len() == 0 {
    } else if spec_qualifies(s[0]) {
        assert(0 <= 0 < s.len() && spec_qualifies(s[0]));
        assert(spec_first_qualifying(s, 0));
    } else {
        let sub = s.drop_first();
        lemma_locate_first_qualifying(sub);
        assert(forall|i: int| 0 <= i < sub.len() ==> sub[i] == s[i + 1]);
        if spec_locate(s) is Some {
            let rt = spec_locate(s).unwrap();
            let i = choose|i: int| spec_first_qualifying(sub, i) && rt == spec_route_of(sub[i]);
            assert(spec_qualifies(s[i + 1]));
            assert(forall|j: int| 0 <= j < i + 1 ==> !spec_qualifies(s[j])) by {
                assert(forall|j: int| 1 <= j < i + 1 ==> s[j] == sub[j - 1]);
            }
            assert(spec_first_qualifying(s, i + 1) && rt == spec_route_of(s[i + 1]));
        }
        if exists|i: int| 0 <= i < s.len() && spec_qualifies(s[i]) {
            let i = choose|i: int| 0 <= i < s.len() && spec_qualifies(s[i]);
            assert(i != 0);
            assert(0 <= i - 1 < sub.len() && spec_qualifies(sub[i - 1]));
        }
    }
}

/// Discovery law: a returned route never carries an empty function name or
/// an empty address, and its candidate's socket file existed: a manifest
/// with an empty `target.function`, or one whose socket is absent, is
/// never returned.
pub proof fn lemma_route_is_validated(s: Seq<BundleInfo>)
    ensures
        spec_locate(s) matches Some(rt) ==> rt.function_name.len() > 0
            && rt.function_address.len() > 0,
        spec_locate(s) is Some ==> exists|i: int|
            #![trigger spec_qualifies(s[i])]
            0 <= i < s.len() && spec_qualifies(s[i]) && s[i].socket_exists && s[i].manifest
                is Some,
{
    lemma_locate_first_qualifying(s);
    if spec_locate(s) is Some {
        let rt = spec_locate(s).unwrap();
        let i = choose|i: int| spec_first_qualifying(s, i) && rt == spec_route_of(s[i]);
        assert(0 <= i < s.len() && spec_qualifies(s[i]) && s[i].socket_exists && s[i].manifest
            is Some);
    }
}

/// Discovery law: a candidate that does not qualify — an unparsable
/// manifest among them — never halts discovery; the scan resolves exactly
/// as if that candidate were absent, so a later valid candidate is still
/// found.
pub proof fn lemma_unqualifying_candidate_skipped(s: Seq<BundleInfo>, i: int)
    requires
        0 <= i < s.len(),
        !spec_qualifies(s[i]),
    ensures
        spec_locate(s) == spec_locate(s.remove(i)),
    decreases i,
{
    if i == 0 {
        assert(s.remove(0) =~= s.drop_first());
    } else {
        assert(s.remove(i)[0] == s[0]);
        if spec_qualifies(s[0]) {
        } else {
            lemma_unqualifying_candidate_skipped(s.drop_first(), i - 1);
            assert(s.remove(i).drop_first() =~= s.drop_first().remove(i - 1));
        }
    }
}

/// How a host-bridge call fails, surfaced to guest code through the
/// engine's error channel.
#[derive(Clone, Copy, Debug, PartialEq, Eq, Structural)]
pub enum BridgeError {
    /// The guest-supplied request region does not lie inside its memory.
    BadAddress,
    /// Discovery resolved no route: the downstream function is unknown.
    FunctionNotFound,
    /// Both transports failed: the downstream function is unavailable.
    CommunicationFailure,
}

/// `mem` after writing `data` at `address`, bytes that would fall past the
/// end of memory silently dropped: the region neither grows nor shrinks,
/// so an under-allocated caller gets a truncated response.
pub open spec fn spec_write_back(mem: Seq<u8>, address: int, data: Seq<u8>) -> Seq<u8> {
    Seq::new(
        mem.len(),
        |i: int|
            if address <= i < address + data.len() {
                data[i - address]
            } else {
                mem[i]
            },
    )
}

fn write_back(mem: &mut Vec<u8>, address: usize, data: &Vec<u8>)
    ensures
        final(mem)@ == spec_write_back(old(mem)@, address as int, data@),
{
    let avail: usize = if address <= mem.len() {
        mem.len() - address
    } else {
        0
    };
    let n: usize = if data.len() < avail {
        data.len()
    } else {
        avail
    };
    let mut j: usize = 0;
    while j < n
        invariant
            j <= n,
            address + n <= mem@.len() || n == 0,
            n <= data@.len(),
            mem@.len() == old(mem)@.len(),
            forall|k: int|
                0 <= k < mem@.len() ==> mem@[k] == (if address <= k < address + j {
                    data@[k - address]
                } else {
                    old(mem)@[k]
                }),
        decreases n - j,
    {
        let len = mem.len();
        proof {
            assert(address + j < len);
        }
        mem.set(address + j, data[j]);
        j = j + 1;
    }
    proof {
        assert(mem@ =~= spec_write_back(old(mem)@, address as int, data@));
    }
}

/// First half of the guest-callable bridge entry: copies the request out
/// of the caller's memory and resolves the downstream route, touching
/// nothing on failure.  The caller then drives the transports with the
/// request and hands their outcome to [`read_memory_host_finish`].
pub fn read_memory_host_begin(
    mem: &Vec<u8>,
    address: usize,
    length: usize,
    bundles: &Vec<BundleInfo>,
) -> (r: Result<(Vec<u8>, Route), BridgeError>)
    ensures
        r is Ok <==> address + length <= mem@.len() && spec_locate(bundles@) is Some,
        r matches Ok(pr) ==> pr.0@ == mem@.subrange(address as int, address + length) && pr.1@
            == spec_locate(bundles@).unwrap(),
        address + length > mem@.len() ==> (r matches Err(e) && e is BadAddress),
        address + length <= mem@.len() && spec_locate(bundles@) is None ==> (r matches Err(e) && e
            is FunctionNotFound),
{
    if address > mem.len() || length > mem.len() - address {
        return Err(BridgeError::BadAddress);
    }
    let payload = crate::bytestr::copy_range(mem, address, length);
    match find_function_metadata(bundles) {
        Some(route) => Ok((payload, route)),
        None => Err(BridgeError::FunctionNotFound),
    }
}

/// Second half of the guest-callable bridge entry: given what the
/// transports yielded, writes the response back into the caller's memory
/// at `address` and returns the response length.  A reply from the socket
/// transport is written as is; a push over the network fallback yields no
/// reply, so the response stays empty — the documented asymmetry of the
/// fallback path; when both transports failed, memory is untouched and the
/// call fails as a communication failure.
pub fn read_memory_host_finish(
    mem: &mut Vec<u8>,
    address: usize,
    socket_reply: Option<Vec<u8>>,
    net_delivered: bool,
) -> (r: Result<usize, BridgeError>)
    ensures
        socket_reply matches Some(p) ==> (r matches Ok(n) && n == p@.len() && final(mem)@
            == spec_write_back(old(mem)@, address as int, p@)),
        socket_reply is None && net_delivered ==> (r matches Ok(n) && n == 0 && final(mem)@ == old(
            mem,
        )@),
        socket_reply is None && !net_delivered ==> (r matches Err(e) && e is CommunicationFailure
            && final(mem)@ == old(mem)@),
{
    match socket_reply {
        Some(p) => {
            let n = p.len();
            write_back(mem, address, &p);
            Ok(n)
        },
        None => {
            if net_delivered {
                Ok(0)
            } else {
                Err(BridgeError::CommunicationFailure)
            }
        },
    }
}

/// The bytes one intra-engine transfer copies: `len` bytes at `address`
/// of the distinguished main module's memory.
pub open spec fn spec_transfer_payload(e: Engine, address: int, len: int) -> Seq<u8> {
    let mi = choose|mi: int|
        spec_is_first_named(e.modules@, spec_main_module_name(), mi);
    e.modules@[mi].memory@.subrange(address, address + len)
}

/// An intra-engine transfer succeeds exactly when the destination module
/// is loaded and offers both conventional exports, the main module is
/// loaded, the requested region lies inside main's memory, and the
/// destination's memory can still grow by `len`.
pub open spec fn spec_transfer_admissible(
    e: Engine,
    source_name: Seq<u8>,
    address: int,
    len: int,
) -> bool {
    &&& spec_has_named(e.modules@, source_name)
    &&& forall|si: int|
        spec_is_first_named(e.modules@, source_name, si) ==> e.modules@[si].exports.allocate
            && e.modules@[si].exports.process_data && e.modules@[si].memory@.len() + len
            <= usize::MAX
    &&& spec_has_named(e.modules@, spec_main_module_name())
    &&& forall|mi: int|
        spec_is_first_named(e.modules@, spec_main_module_name(), mi) ==> address + len
            <= e.modules@[mi].memory@.len()
}

/// Copies `len` bytes at `address` of the main module's memory into the
/// module named `source_function_name`, under exclusive access to the
/// shared engine: the destination's allocator export reserves room at the
/// end of its memory, the bytes are written there, and its processing
/// export — checked present before anything is touched — then consumes
/// them.  Any lookup or bounds failure is surfaced and nothing is
/// mutated; such a failure signals a packaging defect, not a transient
/// fault, so it is never retried.
pub fn transfer_data_within_wasm_vm(
    engine: &mut Engine,
    source_function_name: &Vec<u8>,
    address: usize,
    len: usize,
) -> (r: Result<(), EngineError>)
    requires
        source_function_name@ != spec_main_module_name(),
    ensures
        r is Ok <==> spec_transfer_admissible(
            *old(engine),
            source_function_name@,
            address as int,
            len as int,
        ),
        r is Ok ==> final(engine).modules@.len() == old(engine).modules@.len(),
        r is Ok ==> forall|si: int|
            spec_is_first_named(old(engine).modules@, source_function_name@, si) ==> {
                &&& forall|k: int|
                    0 <= k < old(engine).modules@.len() && k != si ==> spec_module_eq(
                        final(engine).modules@[k],
                        old(engine).modules@[k],
                    )
                &&& final(engine).modules@[si].name@ == old(engine).modules@[si].name@
                &&& final(engine).modules@[si].exports == old(engine).modules@[si].exports
                &&& final(engine).modules@[si].memory@ == old(engine).modules@[si].memory@
                    + spec_transfer_payload(*old(engine), address as int, len as int)
            },
        r is Err ==> spec_modules_eq(final(engine).modules@, old(engine).modules@),
        !spec_has_named(old(engine).modules@, source_function_name@) ==> (r matches Err(e) && e
            is ModuleNotFound),
        forall|si: int|
            spec_is_first_named(old(engine).modules@, source_function_name@, si) && !(old(
                engine,
            ).modules@[si].exports.allocate && old(engine).modules@[si].exports.process_data)
                ==> (r matches Err(e) && e is ExportNotFound),
        spec_has_named(old(engine).modules@, source_function_name@) && (forall|si: int|
            spec_is_first_named(old(engine).modules@, source_function_name@, si) ==> old(
                engine,
            ).modules@[si].exports.allocate && old(engine).modules@[si].exports.process_data)
            && !spec_has_named(old(engine).modules@, spec_main_module_name()) ==> (r matches Err(e)
            && e is ModuleNotFound),
        r is Err && spec_has_named(old(engine).modules@, source_function_name@) && (forall|si: int|
            spec_is_first_named(old(engine).modules@, source_function_name@, si) ==> old(
                engine,
            ).modules@[si].exports.allocate && old(engine).modules@[si].exports.process_data)
            && spec_has_named(old(engine).modules@, spec_main_module_name()) ==> (r matches Err(e)
            && e is MemoryOutOfBounds),
{
    let ghost ms0 = engine.modules@;
    let si = match named_module_index(&engine.modules, source_function_name) {
        Some(i) => i,
        None => {
            return Err(EngineError::ModuleNotFound);
        },
    };
    if !(engine.modules[si].exports.allocate && engine.modules[si].exports.process_data) {
        proof {
            assert forall|sj: int|
                spec_is_first_named(ms0, source_function_name@, sj) implies sj
                == si as int by {
                lemma_first_named_unique(ms0, source_function_name@, sj, si as int);
            }
        }
        return Err(EngineError::ExportNotFound);
    }
    let main_name = main_module_name();
    let mi = match named_module_index(&engine.modules, &main_name) {
        Some(i) => i,
        None => {
            return Err(EngineError::ModuleNotFound);
        },
    };
    proof {
        assert forall|sj: int|
            spec_is_first_named(ms0, source_function_name@, sj) implies sj == si as int by {
            lemma_first_named_unique(ms0, source_function_name@, sj, si as int);
        }
        assert forall|mj: int|
            spec_is_first_named(ms0, spec_main_module_name(), mj) implies mj == mi as int by {
            lemma_first_named_unique(ms0, spec_main_module_name(), mj, mi as int);
        }
    }
    let payload = match read_memory(&engine.modules[mi], address, len) {
        Ok(p) => p,
        Err(e) => {
            return Err(e);
        },
    };
    proof {
        assert(payload@ == spec_transfer_payload(*engine, address as int, len as int));
    }
    let src = &mut engine.modules[si];
    let addr = match allocate(src, len) {
        Ok(a) => a,
        Err(e) => {
            proof {
                assert(spec_modules_eq(ms0.update(si as int, ms0[si as int]), ms0));
            }
            return Err(e);
        },
    };
    match write_memory_host(src, addr, &payload) {
        Ok(u) => u,
        Err(e) => {
            return Err(EngineError::MemoryOutOfBounds);
        },
    };
    proof {
        assert(final(src).memory@ =~= ms0[si as int].memory@ + payload@);
    }
    Ok(())
}

/// Intra-engine transfer is idempotent in its inputs: over two engines
/// whose main modules hold identical memory — two fresh destinations in
/// one engine being the special case — one `(address, length)` region
/// transfers byte-identical contents both times.
pub proof fn lemma_transfer_idempotent(e1: Engine, e2: Engine, address: int, len: int)
    requires
        spec_has_named(e1.modules@, spec_main_module_name()),
        spec_has_named(e2.modules@, spec_main_module_name()),
        forall|m1: int, m2: int|
            spec_is_first_named(e1.modules@, spec_main_module_name(), m1)
                && spec_is_first_named(e2.modules@, spec_main_module_name(), m2)
                ==> e1.modules@[m1].memory@ == e2.modules@[m2].memory@,
    ensures
        spec_transfer_payload(e1, address, len) == spec_transfer_payload(e2, address, len),
{
    lemma_has_named_first(e1.modules@, spec_main_module_name());
    lemma_has_named_first(e2.modules@, spec_main_module_name());
    let m1 = choose|mi: int| spec_is_first_named(e1.modules@, spec_main_module_name(), mi);
    let m2 = choose|mi: int| spec_is_first_named(e2.modules@, spec_main_module_name(), mi);
    assert(e1.modules@[m1].memory@ == e2.modules@[m2].memory@);
}

} // verus!
