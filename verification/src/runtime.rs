//! The per-instance invocation server and the socket client's retry
//! discipline.
//!
//! A function instance serves exactly one inbound request per bind of its
//! rendezvous socket: it accumulates the request until the peer's
//! end-of-stream, drives one engine call under exclusive access, and
//! writes the 8-byte little-endian result back on the same connection.
//! The socket accept/read/write themselves happen outside this crate; the
//! connection model here carries the chunks that were read and the bytes
//! to write back, and every decision over them is proved.
//!
//! The socket transport client connects to a sibling's rendezvous socket
//! and, on any connect failure, rediscovers a (possibly different) route
//! and retries, up to a fixed ceiling; exceeding the ceiling is fatal to
//! the process, and that decision — never the termination itself — is
//! taken here.

use crate::bytestr::append_bytes;
use crate::codec::{encode_result, spec_result_to_le_bytes};
use crate::data_hose::{find_function_metadata, spec_locate, BundleInfo};
use crate::engine::{
    allocate, deallocate, lemma_first_named_unique, main_module_name, named_module_index,
    spec_has_named, spec_is_first_named, spec_main_module_name, spec_module_eq,
    spec_modules_eq, write_memory_host, Engine, EngineError,
};
use crate::oci_utils::OciSpec;
use vstd::prelude::*;

verus! {

/// Ceiling on socket connect attempts; exceeding it is fatal.
pub const MAX_RETRIES: u32 = 1000;

/// One function instance's serving state: its bundle root, the manifest
/// it was started from, and the shared execution engine it owns.
pub struct Runtime {
    pub bundle_path: Vec<u8>,
    pub oci_spec: OciSpec,
    pub vm: Engine,
}

/// One accepted connection on the rendezvous socket, as the server sees
/// it: the chunks read until the peer's end-of-stream, and the bytes
/// written back on the same connection.
pub struct LocalConn {
    pub inbound: Vec<Vec<u8>>,
    pub outbound: Vec<u8>,
}

/// The request a connection carried: its chunks in arrival order, joined.
pub open spec fn spec_concat_chunks(cs: Seq<Vec<u8>>) -> Seq<u8>
    decreases cs.len(),
{
    if cs.len() == 0 {
        Seq::empty()
    } else {
        spec_concat_chunks(cs.drop_last()) + cs.last()@
    }
}

/// Joins the chunks a connection delivered into the full request: the
/// message boundary is the peer's end-of-stream, never a length prefix.
pub fn accumulate_chunks(chunks: &Vec<Vec<u8>>) -> (r: Vec<u8>)
    ensures
        r@ == spec_concat_chunks(chunks@),
{
    let mut r: Vec<u8> = Vec::new();
    let mut i: usize = 0;
    proof {
        assert(chunks@.take(0) =~= Seq::<Vec<u8>>::empty());
    }
    while i < chunks.len()
        invariant
            i <= chunks@.len(),
            r@ == spec_concat_chunks(chunks@.take(i as int)),
        decreases chunks@.len() - i,
    {
        proof {
            assert(chunks@.take(i as int + 1).drop_last() =~= chunks@.take(i as int));
            assert(chunks@.take(i as int + 1).last() == chunks@[i as int]);
        }
        append_bytes(&mut r, &chunks[i]);
        i = i + 1;
    }
    proof {
        assert(chunks@.take(chunks@.len() as int) =~= chunks@);
    }
    r
}

/// An engine invocation is admissible exactly when the main module is
/// loaded, offers the three conventional exports, and its memory can
/// still grow by the input's length.
pub open spec fn spec_invocation_admissible(e: Engine, input_len: int) -> bool {
    &&& spec_has_named(e.modules@, spec_main_module_name())
    &&& forall|mi: int|
        spec_is_first_named(e.modules@, spec_main_module_name(), mi) ==> {
            &&& e.modules@[mi].exports.allocate_memory
            &&& e.modules@[mi].exports.start
            &&& e.modules@[mi].exports.deallocate_memory
            &&& e.modules@[mi].memory@.len() + input_len <= usize::MAX
        }
}

impl Runtime {
    /// A serving runtime over its bundle, manifest and engine.
    pub fn new(bundle_path: Vec<u8>, oci_spec: OciSpec, wasm_vm: Engine) -> (r: Runtime)
        ensures
            r.bundle_path@ == bundle_path@,
            r.oci_spec == oci_spec,
            spec_modules_eq(r.vm.modules@, wasm_vm.modules@),
    {
        Runtime { bundle_path, oci_spec, vm: wasm_vm }
    }

    /// Drives one engine call under exclusive access: reinitialise the
    /// guest's standard environment, let the main module's allocator
    /// export reserve room for the input, write the input there, run the
    /// entry export on `(address, length)`, release the room again, and
    /// return the entry export's signed 64-bit result.  The entry export
    /// runs guest code outside this crate; `entry_result` is what that run
    /// returned, and the contract holds for every value it may take.  A
    /// missing export or an impossible allocation aborts the whole
    /// invocation and leaves the engine as it was.
    pub fn call_vm_with_input(&mut self, input: &Vec<u8>, entry_result: i64) -> (r: Result<
        i64,
        EngineError,
    >)
        ensures
            r is Ok <==> spec_invocation_admissible(old(self).vm, input@.len() as int),
            r matches Ok(v) ==> v == entry_result,
            spec_modules_eq(final(self).vm.modules@, old(self).vm.modules@),
            final(self).bundle_path@ == old(self).bundle_path@,
            final(self).oci_spec == old(self).oci_spec,
            !spec_has_named(old(self).vm.modules@, spec_main_module_name()) ==> (r matches Err(e)
                && e is ModuleNotFound),
            forall|mi: int|
                spec_is_first_named(old(self).vm.modules@, spec_main_module_name(), mi) && !(old(
                    self,
                ).vm.modules@[mi].exports.allocate_memory
                    && old(self).vm.modules@[mi].exports.start
                    && old(self).vm.modules@[mi].exports.deallocate_memory) ==> (r matches Err(e)
                    && e is ExportNotFound),
            r is Err && spec_has_named(old(self).vm.modules@, spec_main_module_name()) && (
            forall|mi: int|
                spec_is_first_named(old(self).vm.modules@, spec_main_module_name(), mi) ==> old(
                    self,
                ).vm.modules@[mi].exports.allocate_memory
                    && old(self).vm.modules@[mi].exports.start
                    && old(self).vm.modules@[mi].exports.deallocate_memory) ==> (r matches Err(e)
                && e is MemoryOutOfBounds),
    {
        let ghost ms0 = self.vm.modules@;
        let main_name = main_module_name();
        let mi = match named_module_index(&self.vm.modules, &main_name) {
            Some(i) => i,
            None => {
                return Err(EngineError::ModuleNotFound);
            },
        };
        proof {
            assert forall|mj: int|
                spec_is_first_named(ms0, spec_main_module_name(), mj) implies mj
                == mi as int by {
                lemma_first_named_unique(ms0, spec_main_module_name(), mj, mi as int);
            }
        }
        if !(self.vm.modules[mi].exports.allocate_memory && self.vm.modules[mi].exports.start
            && self.vm.modules[mi].exports.deallocate_memory) {
            return Err(EngineError::ExportNotFound);
        }
        let len = input.len();
        let main = &mut self.vm.modules[mi];
        let ghost mem0 = main.memory@;
        let func_addr = match allocate(main, len) {
            Ok(a) => a,
            Err(e) => {
                proof {
                    assert(spec_modules_eq(ms0.update(mi as int, ms0[mi as int]), ms0));
                }
                return Err(e);
            },
        };
        match write_memory_host(main, func_addr, input) {
            Ok(u) => u,
            Err(_) => {
                return Err(EngineError::MemoryOutOfBounds);
            },
        };
        deallocate(main, func_addr);
        proof {
            assert(final(main).memory@ =~= mem0);
            assert(spec_modules_eq(ms0.update(mi as int, *final(main)), ms0));
        }
        Ok(entry_result)
    }

    /// Serves the one connection this bind accepts: joins the chunks read
    /// until the peer's end-of-stream; an empty request drives no engine
    /// call and writes nothing back; otherwise one engine call runs and
    /// its result goes back on the same connection as exactly 8 bytes,
    /// little-endian.
    pub fn handle_connection(&mut self, conn: &mut LocalConn, entry_result: i64) -> (r: Result<
        (),
        EngineError,
    >)
        ensures
            ({
                let buf = spec_concat_chunks(old(conn).inbound@);
                &&& buf.len() == 0 ==> r is Ok && final(conn).outbound@ == old(conn).outbound@
                &&& buf.len() > 0 && spec_invocation_admissible(old(self).vm, buf.len() as int)
                    ==> r is Ok && final(conn).outbound@ == old(conn).outbound@
                    + spec_result_to_le_bytes(entry_result)
                &&& buf.len() > 0 && !spec_invocation_admissible(old(self).vm, buf.len() as int)
                    ==> r is Err && final(conn).outbound@ == old(conn).outbound@
            }),
            final(conn).inbound == old(conn).inbound,
            spec_modules_eq(final(self).vm.modules@, old(self).vm.modules@),
            final(self).bundle_path@ == old(self).bundle_path@,
            final(self).oci_spec == old(self).oci_spec,
    {
        let buffer = accumulate_chunks(&conn.inbound);
        if buffer.len() == 0 {
            return Ok(());
        }
        let result = match self.call_vm_with_input(&buffer, entry_result) {
            Ok(v) => v,
            Err(e) => {
                return Err(e);
            },
        };
        let encoded = encode_result(result);
        append_bytes(&mut conn.outbound, &encoded);
        Ok(())
    }
}

/// The first process argument of the manifest: where the network
/// bootstrap connects for the chain's first input.  A manifest without
/// arguments announces no upstream address.
pub fn bootstrap_address(s: &OciSpec) -> (r: Option<Vec<u8>>)
    ensures
        r is Some <==> s.args@.len() > 0,
        r matches Some(a) ==> a@ == s.args@[0]@,
{
    if s.args.len() > 0 {
        Some(crate::bytestr::clone_bytes(&s.args[0]))
    } else {
        None
    }
}

/// What the socket transport client does after a failed connect.
#[derive(Clone, Copy, Debug, PartialEq, Eq, Structural)]
pub enum RetryAction {
    /// Rediscover the route and try again.
    RetryWithRediscovery,
    /// The ceiling is exceeded: the failure is fatal to the process.
    Fatal,
}

/// Connect attempts made so far by one socket transport client.
pub struct RetryState {
    pub retries: u32,
}

impl RetryState {
    /// A client that has not failed yet.
    pub fn new() -> (r: RetryState)
        ensures
            r.retries == 0,
    {
        RetryState { retries: 0 }
    }

    /// Books one failed connect attempt: under the ceiling the client
    /// rediscovers and retries — never aborting early, however often the
    /// rediscovered route repeats itself; at the ceiling the failure is
    /// fatal.
    pub fn on_connect_failure(&mut self) -> (a: RetryAction)
        ensures
            a is RetryWithRediscovery <==> old(self).retries + 1 < MAX_RETRIES,
            a is RetryWithRediscovery ==> final(self).retries == old(self).retries + 1,
            a is Fatal ==> final(self).retries == old(self).retries,
    {
        if self.retries < MAX_RETRIES - 1 {
            self.retries = self.retries + 1;
            RetryAction::RetryWithRediscovery
        } else {
            RetryAction::Fatal
        }
    }
}

/// Re-invokes discovery after a failed connect: the next attempt's socket
/// path is the freshly located route's — the sibling may have started
/// late or restarted under a new bundle — or the previous path again
/// while discovery currently finds nothing.
pub fn rediscover_socket_path(current: Vec<u8>, bundles: &Vec<BundleInfo>) -> (r: Vec<u8>)
    ensures
        spec_locate(bundles@) matches Some(rt) ==> r@ == rt.socket_path,
        spec_locate(bundles@) is None ==> r@ == current@,
{
    match find_function_metadata(bundles) {
        Some(route) => route.socket_path,
        None => current,
    }
}

/// The out-of-band stop sentinel `"exit"`, sent to the rendezvous socket
/// so the serving peer unblocks and shuts down.
pub open spec fn spec_stop_sentinel() -> Seq<u8> {
    seq![101u8, 120u8, 105u8, 116u8]
}

/// The byte string `"exit"`.
pub fn stop_message() -> (r: Vec<u8>)
    ensures
        r@ == spec_stop_sentinel(),
{
    let mut r: Vec<u8> = Vec::new();
    r.push(101);
    r.push(120);
    r.push(105);
    r.push(116);
    proof {
        assert(r@ =~= spec_stop_sentinel());
    }
    r
}

/// Whether a request is the stop sentinel rather than a payload: the peer
/// must recognise it, there being no typed control message.
pub fn is_stop_message(buf: &Vec<u8>) -> (r: bool)
    ensures
        r <==> buf@ == spec_stop_sentinel(),
{
    let sentinel = stop_message();
    crate::bytestr::bytes_eq(buf, &sentinel)
}

} // verus!
