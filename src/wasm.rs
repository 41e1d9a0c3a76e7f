//! The in-process WebAssembly backend: a module compiled once, instantiated
//! for each request, and exchanging envelopes through linear memory.
//!
//! The envelope is written at offset 1 of the default memory and the guest's
//! `handle_request(ptr, len)` returns the address of a response record of
//! `RECORD_WIDTH` bytes, which names the region holding the encoded response.
use vstd::prelude::*;

use crate::codec::{context_tree, wasm_response_from_tree};
use crate::config::FunctionConfig;
use crate::document::{cbor_bytes_of, cbor_parse_of};
use crate::envelope::{prefixed, FunctionContext, WasmResponse};
use wasmer_runtime_core::error::{CallError, RuntimeError};
use wasmer_runtime_core::types::Value;

verus! {

#[verifier::external_type_specification]
#[verifier::external_body]
pub struct ExModule(wasmer_runtime_core::Module);

#[verifier::external_type_specification]
#[verifier::external_body]
pub struct ExInstance(wasmer_runtime_core::Instance);

#[verifier::external_type_specification]
#[verifier::external_body]
pub struct ExImportObject(wasmer_runtime_core::import::ImportObject);

/// Offset at which the envelope is written; offset 0 is left untouched.
pub const ENVELOPE_OFFSET: usize = 1;

/// Width in bytes of the response record that the guest points to.
pub const RECORD_WIDTH: usize = 16;

/// Whether `wasmer_runtime_core::validate` accepts bytes as a module.
pub uninterp spec fn wasm_valid(b: Seq<u8>) -> bool;

/// The bytes of an instance's default linear memory.
pub uninterp spec fn memory_of(i: wasmer_runtime_core::Instance) -> Seq<u8>;

/// Whether an instance has a default linear memory.
pub uninterp spec fn has_memory(i: wasmer_runtime_core::Instance) -> bool;

/// How a call into the guest failed.
#[derive(Debug)]
pub enum GuestFailure {
    /// `handle_request` is not exported with the expected signature.
    MissingExport(String),
    /// The guest trapped.
    Trap(String),
    /// Any other runtime error.
    Failure(String),
}

/// Relies on `wasmer_runtime_core::validate`.
#[verifier::external_body]
fn validate_module(b: &[u8]) -> (r: bool)
    ensures
        r == wasm_valid(b@),
{
    wasmer_runtime_core::validate(b)
}

/// Whether `wasmer_runtime_core::compile_with`, with the Cranelift compiler,
/// compiles bytes into a module.
pub uninterp spec fn wasm_compiles(b: Seq<u8>) -> bool;

/// Relies on `wasmer_runtime_core::compile_with`, with the Cranelift compiler;
/// a failure gives its message.
#[verifier::external_body]
fn compile_module(b: &[u8]) -> (r: Result<wasmer_runtime_core::Module, String>)
    ensures
        r is Ok <==> wasm_compiles(b@),
{
    let compiler = wasmer_clif_backend::CraneliftCompiler::new();
    wasmer_runtime_core::compile_with(b, &compiler).map_err(|e| format!("{:?}", e))
}

/// Relies on `wasmer_runtime_core::Module::instantiate`; a failure gives its message.
#[verifier::external_body]
fn instantiate(
    m: &wasmer_runtime_core::Module,
    imports: &wasmer_runtime_core::import::ImportObject,
) -> (r: Result<wasmer_runtime_core::Instance, String>) {
    m.instantiate(imports).map_err(|e| format!("{}", e))
}

/// Relies on `Ctx::memory`, which finds memory 0 among the imported memories
/// of the module, or else among its own.
#[verifier::external_body]
fn memory_exists(i: &wasmer_runtime_core::Instance) -> (r: bool)
    ensures
        r == has_memory(*i),
{
    let module = i.module();
    module.info().imported_memories.len() > 0 || module.info().memories.len() > 0
}

/// Relies on `Memory::view`: the bytes of memory 0.
#[verifier::external_body]
fn memory_size(i: &wasmer_runtime_core::Instance) -> (r: usize)
    requires
        has_memory(*i),
    ensures
        r == memory_of(*i).len(),
{
    i.context().memory(0).view::<u8>().len()
}

/// Relies on `Memory::view`: reads one byte of memory 0.
#[verifier::external_body]
fn memory_load(i: &wasmer_runtime_core::Instance, at: usize) -> (r: u8)
    requires
        has_memory(*i),
        at < memory_of(*i).len(),
    ensures
        r == memory_of(*i)[at as int],
{
    i.context().memory(0).view::<u8>()[at].get()
}

/// Relies on `Memory::view`: writes one byte of memory 0.
#[verifier::external_body]
fn memory_store(i: &mut wasmer_runtime_core::Instance, at: usize, byte: u8)
    requires
        has_memory(*old(i)),
        at < memory_of(*old(i)).len(),
    ensures
        has_memory(*final(i)),
        memory_of(*final(i)) == memory_of(*old(i)).update(at as int, byte),
{
    i.context_mut().memory(0).view::<u8>()[at].set(byte)
}

/// That a call of the guest's `handle_request(ptr, len)` on the instance
/// `before` gave `outcome` and left the instance as `after`.
pub uninterp spec fn guest_call(
    before: wasmer_runtime_core::Instance,
    after: wasmer_runtime_core::Instance,
    ptr: i32,
    len: i32,
    outcome: Result<Option<i32>, GuestFailure>,
) -> bool;

/// Relies on `Instance::call` of the export `handle_request`; the result is
/// its single `i32` value, if it returned exactly that. A failure to resolve
/// the export gives `MissingExport`, an invocation error (a trap) `Trap`, and
/// any other runtime error `Failure`, each with its message.
#[verifier::external_body]
fn call_entry(i: &mut wasmer_runtime_core::Instance, ptr: i32, len: i32) -> (r: Result<Option<i32>, GuestFailure>)
    ensures
        has_memory(*final(i)) == has_memory(*old(i)),
        guest_call(*old(i), *final(i), ptr, len, r),
{
    match i.call("handle_request", &[Value::I32(ptr), Value::I32(len)]) {
        Ok(v) => Ok(match v.as_slice() {
            [Value::I32(p)] => Some(*p),
            _ => None,
        }),
        Err(CallError::Resolve(e)) => Err(GuestFailure::MissingExport(format!("{}", e))),
        Err(CallError::Runtime(RuntimeError::InvokeError(e))) => Err(GuestFailure::Trap(format!("{:?}", e))),
        Err(CallError::Runtime(e)) => Err(GuestFailure::Failure(format!("{}", e))),
    }
}

/// Failure of the WebAssembly backend.
#[derive(Debug)]
pub enum WasmRuntimeError {
    InvalidWasmError,
    CompileWasmError(String),
    InstantiationError(String),
    /// The instance has no default linear memory.
    MissingMemory,
    SerializeError,
    /// A region lies outside the instance's memory.
    OutOfBounds,
    /// The record at the returned address is not a response record.
    BadRecord,
    /// `handle_request` did not return a single `i32`.
    BadReturn,
    ResolveError(String),
    RuntimeTrap(String),
    RuntimeError(String),
}

impl WasmRuntimeError {
    /// The message of the failure.
    pub fn message(&self) -> (r: String)
        ensures
            match self {
                WasmRuntimeError::InvalidWasmError => r@ == "Failed to validate wasm"@,
                WasmRuntimeError::CompileWasmError(m) => r@ == "Failed to compile wasm "@ + m@,
                WasmRuntimeError::InstantiationError(m) => r@ == "Failed to instantiate module "@ + m@,
                WasmRuntimeError::MissingMemory => r@ == "The module has no linear memory"@,
                WasmRuntimeError::SerializeError => r@ == "Failed to serialize the data"@,
                WasmRuntimeError::OutOfBounds => r@ == "A region lies outside the module's memory"@,
                WasmRuntimeError::BadRecord => r@ == "The guest did not return a response record"@,
                WasmRuntimeError::BadReturn => r@ == "The guest did not return a single i32"@,
                WasmRuntimeError::ResolveError(m) => r@ == "Failed to resolve function in module "@ + m@,
                WasmRuntimeError::RuntimeTrap(m) => r@ == "Trap during runtime: "@ + m@,
                WasmRuntimeError::RuntimeError(m) => r@ == "Error during runtime: "@ + m@,
            },
    {
        match self {
            WasmRuntimeError::InvalidWasmError => String::from_str("Failed to validate wasm"),
            WasmRuntimeError::CompileWasmError(m) => prefixed("Failed to compile wasm ", m),
            WasmRuntimeError::InstantiationError(m) => prefixed("Failed to instantiate module ", m),
            WasmRuntimeError::MissingMemory => String::from_str("The module has no linear memory"),
            WasmRuntimeError::SerializeError => String::from_str("Failed to serialize the data"),
            WasmRuntimeError::OutOfBounds => String::from_str("A region lies outside the module's memory"),
            WasmRuntimeError::BadRecord => String::from_str("The guest did not return a response record"),
            WasmRuntimeError::BadReturn => String::from_str("The guest did not return a single i32"),
            WasmRuntimeError::ResolveError(m) => prefixed("Failed to resolve function in module ", m),
            WasmRuntimeError::RuntimeTrap(m) => prefixed("Trap during runtime: ", m),
            WasmRuntimeError::RuntimeError(m) => prefixed("Error during runtime: ", m),
        }
    }
}

/// The region `[start, start + len)` of `mem`, if it lies inside it.
pub open spec fn region(mem: Seq<u8>, start: int, len: int) -> Option<Seq<u8>> {
    if 0 <= start && 0 <= len && start + len <= mem.len() {
        Some(mem.subrange(start, start + len))
    } else {
        None
    }
}

/// What the guest returned, read from memory after its call: the record at
/// `ret`, then the region it names.
pub open spec fn response_bytes(mem: Seq<u8>, ret: int) -> Result<Seq<u8>, WasmRuntimeError> {
    match region(mem, ret, RECORD_WIDTH as int) {
        None => Err(WasmRuntimeError::OutOfBounds),
        Some(rec) => match cbor_parse_of(rec) {
            Some(t) if wasm_response_from_tree(t) is Some => {
                let w = wasm_response_from_tree(t)->0;
                match region(mem, w.ptr as int, w.len as int) {
                    Some(b) => Ok(b),
                    None => Err(WasmRuntimeError::OutOfBounds),
                }
            },
            _ => Err(WasmRuntimeError::BadRecord),
        },
    }
}

/// The same outcome, errors compared by kind.
pub open spec fn same_outcome(r: Result<Vec<u8>, WasmRuntimeError>, s: Result<Seq<u8>, WasmRuntimeError>) -> bool {
    match (r, s) {
        (Ok(a), Ok(b)) => a@ == b,
        (Err(WasmRuntimeError::OutOfBounds), Err(WasmRuntimeError::OutOfBounds)) => true,
        (Err(WasmRuntimeError::BadRecord), Err(WasmRuntimeError::BadRecord)) => true,
        _ => false,
    }
}

/// Copies `len` bytes of memory 0 from `start`.
fn read_region(i: &wasmer_runtime_core::Instance, start: usize, len: usize) -> (r: Vec<u8>)
    requires
        has_memory(*i),
        start + len <= memory_of(*i).len(),
        start + len <= usize::MAX,
    ensures
        r@ == memory_of(*i).subrange(start as int, start + len),
{
    let mut out: Vec<u8> = Vec::new();
    let mut k: usize = 0;
    while k < len
        invariant
            0 <= k <= len,
            has_memory(*i),
            start + len <= memory_of(*i).len(),
            start + len <= usize::MAX,
            out@ == memory_of(*i).subrange(start as int, start + k),
        decreases len - k,
    {
        out.push(memory_load(i, start + k));
        proof {
            assert(memory_of(*i).subrange(start as int, start + k + 1) =~= memory_of(*i).subrange(
                start as int,
                start + k,
            ).push(memory_of(*i)[start + k]));
        }
        k = k + 1;
    }
    out
}

/// Reads what the guest returned: the response record at `ret`, of
/// `RECORD_WIDTH` bytes in the compact binary encoding, then the bytes of the
/// region it names.
pub fn collect_response(i: &wasmer_runtime_core::Instance, ret: i32) -> (r: Result<Vec<u8>, WasmRuntimeError>)
    requires
        has_memory(*i),
    ensures
        same_outcome(r, response_bytes(memory_of(*i), ret as int)),
{
    let size = memory_size(i);
    if ret < 0 || ret as usize > size || size - (ret as usize) < RECORD_WIDTH {
        return Err(WasmRuntimeError::OutOfBounds);
    }
    let rec = read_region(i, ret as usize, RECORD_WIDTH);
    let w = match WasmResponse::from_slice(rec.as_slice()) {
        Ok(w) => w,
        Err(_) => return Err(WasmRuntimeError::BadRecord),
    };
    if w.ptr < 0 || w.len < 0 || w.ptr as usize > size || size - (w.ptr as usize) < w.len as usize {
        return Err(WasmRuntimeError::OutOfBounds);
    }
    Ok(read_region(i, w.ptr as usize, w.len as usize))
}

/// `mem` with `data` written from `ENVELOPE_OFFSET` on; every other byte,
/// byte 0 included, as it was.
pub open spec fn with_envelope(mem: Seq<u8>, data: Seq<u8>) -> Seq<u8> {
    Seq::new(
        mem.len(),
        |j: int|
            if ENVELOPE_OFFSET <= j < ENVELOPE_OFFSET + data.len() {
                data[j - ENVELOPE_OFFSET]
            } else {
                mem[j]
            },
    )
}

/// Writes `data` into memory 0 from `ENVELOPE_OFFSET` on.
fn write_envelope(i: &mut wasmer_runtime_core::Instance, data: &Vec<u8>)
    requires
        has_memory(*old(i)),
        ENVELOPE_OFFSET + data@.len() <= memory_of(*old(i)).len(),
    ensures
        has_memory(*final(i)),
        memory_of(*final(i)) == with_envelope(memory_of(*old(i)), data@),
{
    let ghost before = memory_of(*i);
    let mut k: usize = 0;
    proof {
        assert(with_envelope(before, data@.take(0)) =~= before);
    }
    while k < data.len()
        invariant
            0 <= k <= data@.len(),
            has_memory(*i),
            ENVELOPE_OFFSET + data@.len() <= before.len(),
            memory_of(*i) == with_envelope(before, data@.take(k as int)),
        decreases data@.len() - k,
    {
        memory_store(i, ENVELOPE_OFFSET + k, data[k]);
        proof {
            assert(memory_of(*i) =~= with_envelope(before, data@.take(k + 1)));
        }
        k = k + 1;
    }
    proof {
        assert(data@.take(data@.len() as int) =~= data@);
    }
}

/// What a run reports for the guest's call: the response that the returned
/// record names, or the kind of the failure, with its message.
pub open spec fn call_result(
    after: wasmer_runtime_core::Instance,
    outcome: Result<Option<i32>, GuestFailure>,
    r: Result<Vec<u8>, WasmRuntimeError>,
) -> bool {
    match outcome {
        Ok(Some(p)) => same_outcome(r, response_bytes(memory_of(after), p as int)),
        Ok(None) => r matches Err(WasmRuntimeError::BadReturn),
        Err(GuestFailure::MissingExport(m)) => r matches Err(WasmRuntimeError::ResolveError(n)) && n == m,
        Err(GuestFailure::Trap(m)) => r matches Err(WasmRuntimeError::RuntimeTrap(n)) && n == m,
        Err(GuestFailure::Failure(m)) => r matches Err(WasmRuntimeError::RuntimeError(n)) && n == m,
    }
}

/// The outcome of running the envelope `data` on the fresh instance `fresh`:
/// no memory, or an envelope that does not fit from `ENVELOPE_OFFSET` on, is an
/// error; otherwise the guest is called once, with `(ENVELOPE_OFFSET, len)`,
/// on the instance whose memory holds `data` there, and its outcome is
/// reported.
pub open spec fn run_outcome(
    fresh: wasmer_runtime_core::Instance,
    data: Seq<u8>,
    r: Result<Vec<u8>, WasmRuntimeError>,
) -> bool {
    if !has_memory(fresh) {
        r matches Err(WasmRuntimeError::MissingMemory)
    } else if data.len() > i32::MAX || ENVELOPE_OFFSET + data.len() > memory_of(fresh).len() {
        r matches Err(WasmRuntimeError::OutOfBounds)
    } else {
        exists|
            entered: wasmer_runtime_core::Instance,
            after: wasmer_runtime_core::Instance,
            outcome: Result<Option<i32>, GuestFailure>,
        |
            #[trigger] guest_call(entered, after, ENVELOPE_OFFSET as i32, data.len() as i32, outcome)
                && has_memory(entered) && memory_of(entered) == with_envelope(memory_of(fresh), data)
                && has_memory(after) && call_result(after, outcome, r)
    }
}

/// Runs the envelope `data` on a fresh instance (see `run_outcome`).
pub fn run_instance(fresh: wasmer_runtime_core::Instance, data: &Vec<u8>) -> (r: Result<Vec<u8>, WasmRuntimeError>)
    ensures
        run_outcome(fresh, data@, r),
{
    let mut inst = fresh;
    if !memory_exists(&inst) {
        return Err(WasmRuntimeError::MissingMemory);
    }
    let size = memory_size(&inst);
    if data.len() > 2147483647 || size < ENVELOPE_OFFSET || size - ENVELOPE_OFFSET < data.len() {
        return Err(WasmRuntimeError::OutOfBounds);
    }
    write_envelope(&mut inst, data);
    let ghost entered = inst;
    let outcome = call_entry(&mut inst, ENVELOPE_OFFSET as i32, data.len() as i32);
    let ghost after = inst;
    let ghost o = outcome;
    let r = match outcome {
        Ok(Some(p)) => collect_response(&inst, p),
        Ok(None) => Err(WasmRuntimeError::BadReturn),
        Err(GuestFailure::MissingExport(m)) => Err(WasmRuntimeError::ResolveError(m)),
        Err(GuestFailure::Trap(m)) => Err(WasmRuntimeError::RuntimeTrap(m)),
        Err(GuestFailure::Failure(m)) => Err(WasmRuntimeError::RuntimeError(m)),
    };
    proof {
        assert(guest_call(entered, after, ENVELOPE_OFFSET as i32, data@.len() as i32, o));
        assert(call_result(after, o, r));
    }
    r
}

/// A compiled module with the bytes it was compiled from.
pub struct WasmRuntime {
    pub config: FunctionConfig,
    pub bytes: Vec<u8>,
    pub module: wasmer_runtime_core::Module,
}

impl WasmRuntime {
    pub fn new(config: FunctionConfig, bytes: Vec<u8>, module: wasmer_runtime_core::Module) -> (r: WasmRuntime)
        ensures
            r.config == config,
            r.bytes == bytes,
            r.module == module,
    {
        WasmRuntime { config, bytes, module }
    }

    /// Validates and compiles the bytes of the handler's module.
    pub fn initialize(config: FunctionConfig, bytes: Vec<u8>) -> (r: Result<WasmRuntime, WasmRuntimeError>)
        ensures
            r is Ok <==> wasm_valid(bytes@) && wasm_compiles(bytes@),
            !wasm_valid(bytes@) ==> r matches Err(WasmRuntimeError::InvalidWasmError),
            wasm_valid(bytes@) && !wasm_compiles(bytes@) ==> r matches Err(WasmRuntimeError::CompileWasmError(_)),
            r is Ok ==> r->Ok_0.bytes@ == bytes@ && r->Ok_0.config == config,
    {
        if !validate_module(bytes.as_slice()) {
            return Err(WasmRuntimeError::InvalidWasmError);
        }
        match compile_module(bytes.as_slice()) {
            Ok(module) => Ok(WasmRuntime::new(config, bytes, module)),
            Err(m) => Err(WasmRuntimeError::CompileWasmError(m)),
        }
    }

    /// Runs one request: the compact binary envelope on a fresh instance of
    /// the module (see `run_outcome`). A failed instantiation is reported as
    /// `InstantiationError`, and then the guest is not called.
    pub fn handle_request(
        &self,
        imports: &wasmer_runtime_core::import::ImportObject,
        ctx: &FunctionContext,
    ) -> (r: Result<Vec<u8>, WasmRuntimeError>)
        ensures
            !(r matches Err(WasmRuntimeError::SerializeError)),
            !(r matches Err(WasmRuntimeError::InstantiationError(_))) ==> exists|fresh: wasmer_runtime_core::Instance|
                #[trigger] run_outcome(fresh, cbor_bytes_of(context_tree(ctx@)), r),
    {
        let data = match ctx.to_bytes() {
            Ok(d) => d,
            Err(_) => return Err(WasmRuntimeError::SerializeError),
        };
        let inst = match instantiate(&self.module, imports) {
            Ok(i) => i,
            Err(m) => return Err(WasmRuntimeError::InstantiationError(m)),
        };
        let ghost fresh = inst;
        let r = run_instance(inst, &data);
        proof {
            assert(run_outcome(fresh, cbor_bytes_of(context_tree(ctx@)), r));
        }
        r
    }
}

} // verus!
