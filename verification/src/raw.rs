//! An instance bound under the raw-pointer convention: the host allocates
//! in the plugin's memory with a bump cursor, writes its arguments there,
//! and reads results back through bounds records.

use crate::abi::{StringRef, BOUNDS_RECORD_SIZE, OUTPUT_SLOT_SIZE, PAGE_SIZE};
use crate::binder::{binding_fault, check_exports, Convention, ExportsFound};
use crate::cursor::MemoryCursor;
use crate::engine::{
    call_ternary, call_unary, declared_imports, export_memory, export_ternary, export_unary,
    exported_page_bytes, exports_ternary, exports_unary, func_owner, host_func, instance_new,
    instance_owner, instance_source, memory_bytes, memory_grow, memory_owner, memory_page_size,
    memory_read, memory_size, memory_write, module_imports, module_new, module_source,
    page_bytes, store_id, store_new, ternary_owner, unary_owner,
};
use crate::error::{Fault, HostError};
use crate::memory::{bounds_at, grown_from, pages_short, read_at, reply_at, string_at, write_at};
use crate::registry::{import_fault, CapabilityRegistry, HostFunction, ImportDecl};
use crate::sandbox::start_engine;
use crate::text::decode_text;
use vstd::prelude::*;
use vstd::string::StringSliceAdditionalSpecFns;
use vstd::utf8::encode_utf8;

verus! {

/// What a result says once its string and its error are taken by their
/// views.
pub open spec fn outcome(r: Result<String, HostError>) -> Result<Seq<char>, Fault> {
    match r {
        Ok(s) => Ok(s@),
        Err(e) => Err(e@),
    }
}

/// `after` is `before`, grown by whole pages, with `bytes` stored at
/// `offset` and every other byte that `before` had left alone.
pub open spec fn stored_in(after: Seq<u8>, before: Seq<u8>, offset: int, bytes: Seq<u8>) -> bool {
    &&& after.len() >= before.len()
    &&& (after.len() - before.len()) % (PAGE_SIZE as int) == 0
    &&& 0 <= offset
    &&& offset + bytes.len() <= after.len()
    &&& read_at(after, offset, bytes.len() as int) == bytes
    &&& forall|i: int|
        0 <= i < before.len() && !(offset <= i < offset + bytes.len()) ==> after[i] == before[i]
}

/// Whether the `needed` bytes of a call could not be staged at the cursor
/// of `before`: they could not be addressed with 32 bits, or the memory
/// that the call left in `after` is still too short for them.
pub open spec fn could_not_stage(before: RawInstance, after: RawInstance, needed: nat) -> bool {
    before.cursor() + needed > u32::MAX || after.memory().len() < before.cursor() + needed
}

/// What a call of the plugin owes when it stages `needed` bytes first. The
/// cursor is back at 0 and the memory is no shorter than before. Where the
/// bytes could not be staged, the plugin was not called: the reply is a
/// memory fault and the memory is the old one with the pages granted before
/// the refusal. Where they could, the reply is what the bounds record in the
/// output slot names in the memory as the call left it, unless the engine
/// stopped the plugin.
pub open spec fn raw_call_result(
    before: RawInstance,
    after: RawInstance,
    needed: nat,
    reply: Result<String, HostError>,
) -> bool {
    &&& after.cursor() == 0
    &&& after.memory().len() >= before.memory().len()
    &&& could_not_stage(before, after, needed) ==> {
        &&& outcome(reply) == Err::<Seq<char>, Fault>(Fault::MemoryFault)
        &&& grown_from(after.memory(), before.memory())
    }
    &&& !could_not_stage(before, after, needed) ==> {
        ||| outcome(reply) == reply_at(after.memory(), before.cursor() as u32)
        ||| outcome(reply) == Err::<Seq<char>, Fault>(Fault::Engine)
    }
}

/// A call answers with a memory fault only where the bytes could not be
/// staged or the reply itself lies outside the memory.
pub proof fn lemma_memory_fault_of_call(
    before: RawInstance,
    after: RawInstance,
    needed: nat,
    reply: Result<String, HostError>,
)
    requires
        raw_call_result(before, after, needed, reply),
    ensures
        before.cursor() + needed > u32::MAX ==> outcome(reply) == Err::<Seq<char>, Fault>(
            Fault::MemoryFault,
        ),
        outcome(reply) == Err::<Seq<char>, Fault>(Fault::MemoryFault) ==> {
            ||| reply_at(after.memory(), before.cursor() as u32) == Err::<Seq<char>, Fault>(
                Fault::MemoryFault,
            )
            ||| grown_from(after.memory(), before.memory()) && could_not_stage(
                before,
                after,
                needed,
            )
        },
{
}

/// What the lookups of the raw-pointer convention find in an instance:
/// `language` as a function of one offset, `greet` as a function of three,
/// and the page size of `memory`.
pub open spec fn raw_exports(instance: wasmtime::Instance) -> ExportsFound {
    ExportsFound {
        language: exports_unary(instance, "language"@),
        greet: exports_ternary(instance, "greet"@),
        memory_page_size: match exported_page_bytes(instance, "memory"@) {
            Some(size) => Some(size as u64),
            None => None,
        },
    }
}

/// Whether instantiating the binary `bytes` with `offered` and binding it
/// under the raw-pointer convention can end in `fault`: the engine could
/// not be set up or refused the instance, the bytes are no module, a module
/// compiled from them declares an import that nothing offered satisfies, or
/// an instance made from them lacks an export of the convention.
pub open spec fn raw_start_fault(
    bytes: Seq<u8>,
    offered: Map<Seq<char>, HostFunction>,
    fault: Fault,
) -> bool {
    ||| fault == Fault::Engine
    ||| fault == Fault::Load
    ||| exists|module: wasmtime::Module|
        #[trigger] module_source(module) == bytes && import_fault(
            offered,
            declared_imports(module),
        ) == Some(fault)
    ||| exists|instance: wasmtime::Instance|
        #[trigger] instance_source(instance) == bytes && binding_fault(
            Convention::RawPointer,
            raw_exports(instance),
        ) == Some(fault)
}

/// Whether the binary `bytes` can be started with `offered` under the
/// raw-pointer convention: a module compiled from it declares no import
/// that is left unsatisfied, and an instance made from it has every export
/// of the convention.
pub open spec fn raw_start_clean(bytes: Seq<u8>, offered: Map<Seq<char>, HostFunction>) -> bool {
    &&& exists|module: wasmtime::Module|
        #[trigger] module_source(module) == bytes && import_fault(
            offered,
            declared_imports(module),
        ).is_none()
    &&& exists|instance: wasmtime::Instance|
        #[trigger] instance_source(instance) == bytes && binding_fault(
            Convention::RawPointer,
            raw_exports(instance),
        ).is_none()
}

/// Every fault of a start under the raw-pointer convention is one of
/// instantiating and binding.
pub proof fn lemma_raw_start_fault(
    bytes: Seq<u8>,
    offered: Map<Seq<char>, HostFunction>,
    fault: Fault,
)
    requires
        raw_start_fault(bytes, offered, fault),
    ensures
        fault.of_binding(),
{
    if exists|module: wasmtime::Module|
        #[trigger] module_source(module) == bytes && import_fault(
            offered,
            declared_imports(module),
        ) == Some(fault) {
        let module = choose|module: wasmtime::Module|
            #[trigger] module_source(module) == bytes && import_fault(
                offered,
                declared_imports(module),
            ) == Some(fault);
        crate::registry::lemma_import_fault_names(offered, declared_imports(module));
    }
}

/// A live plugin with its memory, its two bound functions and the cursor
/// that allocates in the memory.
pub struct RawInstance {
    store: wasmtime::Store<()>,
    memory: wasmtime::Memory,
    language: wasmtime::TypedFunc<(i32,), ()>,
    greet: wasmtime::TypedFunc<(i32, i32, i32), ()>,
    cursor: MemoryCursor,
}

impl RawInstance {
    /// The handles belong to the store, the memory grows in pages of
    /// `PAGE_SIZE` bytes, and the cursor lies inside the memory.
    pub closed spec fn wf(&self) -> bool {
        &&& memory_owner(self.memory) == store_id(self.store)
        &&& unary_owner(self.language) == store_id(self.store)
        &&& ternary_owner(self.greet) == store_id(self.store)
        &&& page_bytes(self.memory) == PAGE_SIZE
        &&& self.cursor@ <= memory_bytes(self.store, self.memory).len()
    }

    /// The bytes of the plugin's memory.
    pub closed spec fn memory(&self) -> Seq<u8> {
        memory_bytes(self.store, self.memory)
    }

    /// The next free offset.
    pub closed spec fn cursor(&self) -> nat {
        self.cursor@
    }

    /// The cursor itself.
    pub closed spec fn cursor_state(&self) -> MemoryCursor {
        self.cursor
    }

    /// The next free offset is the view of the cursor.
    pub proof fn lemma_cursor_view(&self)
        ensures
            self.cursor() == self.cursor_state()@,
    {
    }

    /// In a well-formed instance the cursor lies inside the memory and
    /// inside what 32 bits address.
    pub proof fn lemma_cursor_in_memory(&self)
        requires
            self.wf(),
        ensures
            self.cursor() <= self.memory().len(),
            self.cursor() <= u32::MAX,
    {
        self.cursor.lemma_bounded();
    }

    /// The current size of the memory in bytes.
    pub fn memory_len(&self) -> (size: usize)
        requires
            self.wf(),
        ensures
            size == self.memory().len(),
    {
        memory_size(&self.store, &self.memory)
    }

    /// The next free offset.
    pub fn cursor_offset(&self) -> (offset: u32)
        ensures
            offset == self.cursor(),
    {
        self.cursor.position()
    }

    /// Hands out `size` bytes at the cursor and moves the cursor past them.
    /// While the memory is too short it is grown by one page at a time;
    /// when the engine refuses a page, or the bytes could not be addressed
    /// with 32 bits, the allocation fails and the cursor stays. Pages added
    /// before a refusal stay.
    pub fn allocate(&mut self, size: u32) -> (allocated: Result<u32, HostError>)
        requires
            old(self).wf(),
        ensures
            final(self).wf(),
            grown_from(final(self).memory(), old(self).memory()),
            old(self).cursor() + size <= old(self).memory().len() && old(self).cursor() + size
                <= u32::MAX ==> allocated.is_ok(),
            match allocated {
                Ok(offset) => {
                    &&& (offset, final(self).cursor_state()) == old(self).cursor_state().bumped(
                        size,
                    )
                    &&& offset == old(self).cursor()
                    &&& final(self).cursor() == old(self).cursor() + size
                    &&& final(self).memory().len() >= old(self).cursor() + size
                    &&& final(self).memory().len() == old(self).memory().len() + pages_short(
                        old(self).memory().len() as int,
                        old(self).cursor() + size,
                    ) * PAGE_SIZE
                },
                Err(e) => {
                    &&& e@ == Fault::MemoryFault
                    &&& final(self).cursor() == old(self).cursor()
                    &&& old(self).cursor() + size > u32::MAX || final(self).memory().len() < old(
                        self,
                    ).cursor() + size
                },
            },
    {
        let ghost before = self.memory();
        proof {
            self.cursor.lemma_bounded();
            assert(before.subrange(0, before.len() as int) =~= before);
        }
        let start: u32 = self.cursor.position();
        if size > u32::MAX - start {
            return Err(HostError::MemoryFault);
        }
        let end: u32 = start + size;
        let mut have: usize = memory_size(&self.store, &self.memory);
        while (end as usize) > have
            invariant
                memory_owner(self.memory) == store_id(self.store),
                unary_owner(self.language) == store_id(self.store),
                ternary_owner(self.greet) == store_id(self.store),
                page_bytes(self.memory) == PAGE_SIZE,
                self.cursor == old(self).cursor,
                self.cursor@ == start,
                end == start + size,
                have == self.memory().len(),
                before == old(self).memory(),
                start <= before.len(),
                grown_from(self.memory(), before),
                self.memory().len() + pages_short(self.memory().len() as int, end as int)
                    * PAGE_SIZE == before.len() + pages_short(before.len() as int, end as int)
                    * PAGE_SIZE,
            decreases pages_short(have as int, end as int),
        {
            let ghost current = self.memory();
            if have > usize::MAX - (2 * PAGE_SIZE - 1) {
                return Err(HostError::MemoryFault);
            }
            proof {
                assert((1 + 1) * page_bytes(self.memory) == 2 * PAGE_SIZE) by (nonlinear_arith)
                    requires
                        page_bytes(self.memory) == PAGE_SIZE,
                ;
            }
            match memory_grow(&mut self.store, &self.memory, 1) {
                Ok(_) => {
                    proof {
                        assert(1 * page_bytes(self.memory) == PAGE_SIZE) by (nonlinear_arith)
                            requires
                                page_bytes(self.memory) == PAGE_SIZE,
                        ;
                        assert(self.memory().len() == current.len() + PAGE_SIZE);
                        crate::memory::lemma_grown_from_chain(before, current, self.memory());
                    }
                    have = memory_size(&self.store, &self.memory);
                },
                Err(_) => {
                    return Err(HostError::MemoryFault);
                },
            }
        }
        match self.cursor.advance(size) {
            Some(offset) => Ok(offset),
            None => Err(HostError::MemoryFault),
        }
    }

    /// Gives every allocation up at once; the memory keeps its size and its
    /// bytes.
    pub fn reset(&mut self)
        requires
            old(self).wf(),
        ensures
            final(self).wf(),
            final(self).cursor_state() == old(self).cursor_state().rewound(),
            final(self).cursor() == 0,
            final(self).memory() == old(self).memory(),
    {
        self.cursor.reset();
    }

    /// Stores `bytes` at `offset`, or nothing when they do not fit into the
    /// memory as it is.
    pub fn write_bytes(&mut self, offset: u32, bytes: &[u8]) -> (written: Result<(), HostError>)
        requires
            old(self).wf(),
        ensures
            final(self).wf(),
            final(self).cursor() == old(self).cursor(),
            match written {
                Ok(_) => {
                    &&& offset + bytes@.len() <= old(self).memory().len()
                    &&& final(self).memory() == write_at(
                        old(self).memory(),
                        offset as int,
                        bytes@,
                    )
                },
                Err(e) => {
                    &&& offset + bytes@.len() > old(self).memory().len()
                    &&& e@ == Fault::MemoryFault
                    &&& final(self).memory() == old(self).memory()
                },
            },
    {
        let ghost before = self.memory();
        match memory_write(&mut self.store, &self.memory, offset as usize, bytes) {
            Ok(_) => {
                proof {
                    crate::memory::lemma_write_then_read(before, offset as int, bytes@);
                }
                Ok(())
            },
            Err(_) => Err(HostError::MemoryFault),
        }
    }

    /// The bytes of the range `r`, tested against the current size of the
    /// memory.
    pub fn read_bytes(&self, r: StringRef) -> (read: Result<Vec<u8>, HostError>)
        requires
            self.wf(),
        ensures
            match read {
                Ok(bytes) => r.fits(self.memory().len()) && bytes@ == read_at(
                    self.memory(),
                    r.offset as int,
                    r.length as int,
                ),
                Err(e) => !r.fits(self.memory().len()) && e@ == Fault::MemoryFault,
            },
    {
        let size: usize = memory_size(&self.store, &self.memory);
        if !r.fits_in(size) {
            return Err(HostError::MemoryFault);
        }
        match memory_read(&self.store, &self.memory, r.offset as usize, r.length as usize) {
            Ok(bytes) => Ok(bytes),
            Err(_) => Err(HostError::MemoryFault),
        }
    }

    /// Encodes `s` as UTF-8 into freshly allocated bytes and names them. It
    /// fails only where the allocation does.
    pub fn write_string(&mut self, s: &str) -> (written: Result<StringRef, HostError>)
        requires
            old(self).wf(),
        ensures
            final(self).wf(),
            old(self).cursor() + encode_utf8(s@).len() <= old(self).memory().len() && old(
                self,
            ).cursor() + encode_utf8(s@).len() <= u32::MAX ==> written.is_ok(),
            match written {
                Ok(r) => {
                    &&& r.offset == old(self).cursor()
                    &&& r.length == encode_utf8(s@).len()
                    &&& final(self).cursor() == r.end()
                    &&& stored_in(
                        final(self).memory(),
                        old(self).memory(),
                        r.offset as int,
                        encode_utf8(s@),
                    )
                    &&& final(self).memory().len() == old(self).memory().len() + pages_short(
                        old(self).memory().len() as int,
                        r.end() as int,
                    ) * PAGE_SIZE
                    &&& string_at(final(self).memory(), r) == Ok::<Seq<char>, Fault>(s@)
                },
                Err(e) => {
                    &&& e@ == Fault::MemoryFault
                    &&& final(self).cursor() == old(self).cursor()
                    &&& grown_from(final(self).memory(), old(self).memory())
                    &&& old(self).cursor() + encode_utf8(s@).len() > u32::MAX
                        || final(self).memory().len() < old(self).cursor() + encode_utf8(
                        s@,
                    ).len()
                },
            },
    {
        let ghost before = self.memory();
        let bytes: &[u8] = s.as_bytes();
        proof {
            self.cursor.lemma_bounded();
            assert(before.subrange(0, before.len() as int) =~= before);
        }
        if bytes.len() > u32::MAX as usize {
            return Err(HostError::MemoryFault);
        }
        let length: u32 = bytes.len() as u32;
        let offset: u32 = match self.allocate(length) {
            Ok(offset) => offset,
            Err(e) => {
                return Err(e);
            },
        };
        let ghost grown = self.memory();
        match self.write_bytes(offset, bytes) {
            Ok(_) => {
                let r = StringRef { offset, length };
                proof {
                    crate::memory::lemma_write_then_read(grown, offset as int, bytes@);
                    crate::memory::lemma_string_round_trip(grown, s@, r);
                    assert forall|i: int|
                        0 <= i < before.len() && !(offset <= i < offset + bytes@.len())
                        implies self.memory()[i] == before[i] by {
                        assert(grown.subrange(0, before.len() as int)[i] == grown[i]);
                    }
                }
                Ok(r)
            },
            Err(e) => Err(e),
        }
    }

    /// Decodes the string that `r` names. The range is tested against the
    /// current size of the memory and its bytes against UTF-8.
    pub fn read_string(&self, r: StringRef) -> (read: Result<String, HostError>)
        requires
            self.wf(),
        ensures
            outcome(read) == string_at(self.memory(), r),
    {
        match self.read_bytes(r) {
            Ok(bytes) => decode_text(bytes),
            Err(e) => Err(e),
        }
    }

    /// Reads the bounds record that starts at `at`.
    pub fn read_bounds(&self, at: u32) -> (read: Result<StringRef, HostError>)
        requires
            self.wf(),
        ensures
            match read {
                Ok(r) => bounds_at(self.memory(), at) == Ok::<StringRef, Fault>(r),
                Err(e) => bounds_at(self.memory(), at) == Err::<StringRef, Fault>(e@),
            },
    {
        match self.read_bytes(StringRef { offset: at, length: BOUNDS_RECORD_SIZE }) {
            Ok(bytes) => match StringRef::from_record(bytes.as_slice()) {
                Some(r) => Ok(r),
                None => Err(HostError::MemoryFault),
            },
            Err(e) => Err(e),
        }
    }

    /// Writes the bounds record of `r` at `at`.
    pub fn write_bounds(&mut self, at: u32, r: StringRef) -> (written: Result<(), HostError>)
        requires
            old(self).wf(),
        ensures
            final(self).wf(),
            final(self).cursor() == old(self).cursor(),
            match written {
                Ok(_) => {
                    &&& at + 8 <= old(self).memory().len()
                    &&& final(self).memory() == write_at(old(self).memory(), at as int, r.record())
                    &&& bounds_at(final(self).memory(), at) == Ok::<StringRef, Fault>(r)
                },
                Err(e) => {
                    &&& at + 8 > old(self).memory().len()
                    &&& e@ == Fault::MemoryFault
                    &&& final(self).memory() == old(self).memory()
                },
            },
    {
        let record: Vec<u8> = r.to_record();
        let ghost before = self.memory();
        let written = self.write_bytes(at, record.as_slice());
        proof {
            if written.is_ok() {
                crate::memory::lemma_bounds_round_trip(before, at, r);
            }
        }
        written
    }

    /// Instantiates the module in `bytes` with the capabilities of
    /// `registry` as its imports and binds it under the raw-pointer
    /// convention. What the engine makes of the bytes decides the outcome;
    /// the faults are those of loading, of resolving the imports against
    /// the registry, of instantiation and of binding, in that order.
    pub fn from_module(bytes: &[u8], registry: &CapabilityRegistry) -> (made: Result<
        RawInstance,
        HostError,
    >)
        requires
            registry.wf(),
        ensures
            match made {
                Ok(instance) => {
                    &&& instance.wf()
                    &&& instance.cursor() == 0
                    &&& raw_start_clean(bytes@, registry@)
                },
                Err(e) => raw_start_fault(bytes@, registry@, e@),
            },
    {
        let engine = match start_engine() {
            Ok(engine) => engine,
            Err(e) => {
                return Err(e);
            },
        };
        let module = match module_new(&engine, bytes) {
            Ok(module) => module,
            Err(_) => {
                return Err(HostError::Load);
            },
        };
        let declared: Vec<ImportDecl> = module_imports(&module);
        let functions: Vec<HostFunction> = match registry.resolve(&declared) {
            Ok(functions) => functions,
            Err(e) => {
                return Err(e);
            },
        };
        let mut store = store_new(&engine);
        let imports: Vec<wasmtime::Func> = provide(&mut store, &functions);
        let instance = match instance_new(&mut store, &module, &imports) {
            Ok(instance) => instance,
            Err(_) => {
                return Err(HostError::Engine);
            },
        };
        RawInstance::bind(store, &instance)
    }

    /// Looks the exports of the raw-pointer convention up, once, and keeps
    /// the handles for every later call.
    fn bind(store: wasmtime::Store<()>, instance: &wasmtime::Instance) -> (bound: Result<
        RawInstance,
        HostError,
    >)
        requires
            instance_owner(*instance) == store_id(store),
        ensures
            match binding_fault(Convention::RawPointer, raw_exports(*instance)) {
                Some(fault) => bound matches Err(e) && e@ == fault,
                None => bound matches Ok(raw) && raw.wf() && raw.cursor() == 0,
            },
    {
        let mut store = store;
        let language = export_unary(&mut store, instance, "language");
        let greet = export_ternary(&mut store, instance, "greet");
        let memory = export_memory(&mut store, instance, "memory");
        let memory_page_size: Option<u64> = match &memory {
            Some(memory) => Some(memory_page_size(&store, memory)),
            None => None,
        };
        let found = ExportsFound {
            language: language.is_ok(),
            greet: greet.is_ok(),
            memory_page_size,
        };
        match check_exports(Convention::RawPointer, found) {
            Ok(_) => match (language, greet, memory) {
                (Ok(language), Ok(greet), Some(memory)) => Ok(
                    RawInstance { store, memory, language, greet, cursor: MemoryCursor::start() },
                ),
                _ => Err(HostError::MemoryExportMissing),
            },
            Err(e) => Err(e),
        }
    }

    /// Allocates the output slot and, after it, the bytes of `name`: what
    /// the plugin's `greet` is then called with. The slot and the name do
    /// not overlap, and the name reads back from its range as it was given.
    /// It succeeds wherever slot and name fit into the memory as it is, and
    /// fails only where they cannot be addressed or the engine refuses a
    /// page; a slot allocated before the refusal stays allocated.
    pub fn stage_greet(&mut self, name: &str) -> (staged: Result<(u32, StringRef), HostError>)
        requires
            old(self).wf(),
        ensures
            final(self).wf(),
            old(self).cursor() + OUTPUT_SLOT_SIZE + encode_utf8(name@).len() <= old(
                self,
            ).memory().len() && old(self).cursor() + OUTPUT_SLOT_SIZE + encode_utf8(name@).len()
                <= u32::MAX ==> staged.is_ok(),
            match staged {
                Ok((slot, input)) => {
                    &&& slot == old(self).cursor()
                    &&& input.offset == slot + OUTPUT_SLOT_SIZE
                    &&& input.length == encode_utf8(name@).len()
                    &&& final(self).cursor() == input.end()
                    &&& stored_in(
                        final(self).memory(),
                        old(self).memory(),
                        input.offset as int,
                        encode_utf8(name@),
                    )
                    &&& string_at(final(self).memory(), input) == Ok::<Seq<char>, Fault>(name@)
                    &&& final(self).memory().len() == old(self).memory().len() + pages_short(
                        old(self).memory().len() as int,
                        input.end() as int,
                    ) * PAGE_SIZE
                },
                Err(e) => {
                    &&& e@ == Fault::MemoryFault
                    &&& grown_from(final(self).memory(), old(self).memory())
                    &&& old(self).cursor() + OUTPUT_SLOT_SIZE + encode_utf8(name@).len()
                        > u32::MAX || final(self).memory().len() < old(self).cursor()
                        + OUTPUT_SLOT_SIZE + encode_utf8(name@).len()
                    &&& final(self).cursor() == if old(self).cursor() + OUTPUT_SLOT_SIZE
                        <= u32::MAX && final(self).memory().len() >= old(self).cursor()
                        + OUTPUT_SLOT_SIZE {
                        old(self).cursor() + OUTPUT_SLOT_SIZE
                    } else {
                        old(self).cursor() as int
                    }
                },
            },
    {
        let ghost before = self.memory();
        proof {
            self.cursor.lemma_bounded();
        }
        let slot: u32 = match self.allocate(OUTPUT_SLOT_SIZE) {
            Ok(slot) => slot,
            Err(e) => {
                return Err(e);
            },
        };
        let ghost grown = self.memory();
        proof {
            self.cursor.lemma_bounded();
        }
        match self.write_string(name) {
            Ok(input) => {
                proof {
                    assert forall|i: int|
                        0 <= i < before.len() && !(input.offset <= i < input.offset
                            + encode_utf8(name@).len()) implies self.memory()[i] == before[i] by {
                        assert(grown.subrange(0, before.len() as int)[i] == grown[i]);
                    }
                    crate::memory::lemma_pages_short_in_steps(
                        before.len() as int,
                        slot + OUTPUT_SLOT_SIZE,
                        input.end() as int,
                    );
                }
                Ok((slot, input))
            },
            Err(e) => {
                proof {
                    crate::memory::lemma_grown_from_chain(before, grown, self.memory());
                }
                Err(e)
            },
        }
    }

    /// Asks the plugin for its language: allocates the output slot, calls
    /// `language` with its offset, gives the allocation up and decodes what
    /// the bounds record in the slot names. The reply is read from the
    /// memory as the call left it. Where the slot cannot be allocated the
    /// plugin is not called and the reply is a memory fault.
    pub fn call_language(&mut self) -> (reply: Result<String, HostError>)
        requires
            old(self).wf(),
        ensures
            final(self).wf(),
            raw_call_result(*old(self), *final(self), OUTPUT_SLOT_SIZE as nat, reply),
    {
        proof {
            self.cursor.lemma_bounded();
        }
        let slot: u32 = match self.allocate(OUTPUT_SLOT_SIZE) {
            Ok(slot) => slot,
            Err(e) => {
                self.reset();
                return Err(e);
            },
        };
        proof {
            self.cursor.lemma_bounded();
        }
        let returned = call_unary(&mut self.store, &self.language, wire(slot));
        self.cursor.reset();
        match returned {
            Ok(_) => self.read_reply(slot),
            Err(_) => Err(HostError::Engine),
        }
    }

    /// Greets `name` through the plugin: stages the output slot and the
    /// name, calls `greet` with the slot's offset and the name's range,
    /// gives the allocations up and decodes what the bounds record in the
    /// slot names. The reply is read from the memory as the call left it.
    /// Where slot and name cannot be staged the plugin is not called and the
    /// reply is a memory fault.
    pub fn call_greet(&mut self, name: &str) -> (reply: Result<String, HostError>)
        requires
            old(self).wf(),
        ensures
            final(self).wf(),
            raw_call_result(
                *old(self),
                *final(self),
                (OUTPUT_SLOT_SIZE + encode_utf8(name@).len()) as nat,
                reply,
            ),
    {
        let (slot, input) = match self.stage_greet(name) {
            Ok(staged) => staged,
            Err(e) => {
                self.reset();
                return Err(e);
            },
        };
        proof {
            self.cursor.lemma_bounded();
        }
        let returned = call_ternary(&mut self.store, &self.greet, greet_arguments(slot, input));
        self.cursor.reset();
        match returned {
            Ok(_) => self.read_reply(slot),
            Err(_) => Err(HostError::Engine),
        }
    }

    /// The string that a plugin handed back through the bounds record at
    /// `at`, read from the memory as it is now.
    pub fn read_reply(&self, at: u32) -> (reply: Result<String, HostError>)
        requires
            self.wf(),
        ensures
            outcome(reply) == reply_at(self.memory(), at),
    {
        match self.read_bounds(at) {
            Ok(r) => self.read_string(r),
            Err(e) => Err(e),
        }
    }
}

/// Cross-call isolation. Let `after_first` be the memory that an earlier
/// greet call left, whatever name it staged and whatever the plugin wrote,
/// and let the next call, with the cursor reset, stage `second` into
/// `staged_second`. The range handed to the plugin in that call holds the
/// bytes of `second` and nothing else, it decodes to `second`, and it lies
/// behind the output slot: no byte of the earlier name is passed on,
/// however the two names overlap in memory.
pub proof fn lemma_second_call_sees_only_its_input(
    after_first: Seq<u8>,
    second: Seq<char>,
    staged_second: Seq<u8>,
    input: StringRef,
)
    requires
        stored_in(staged_second, after_first, OUTPUT_SLOT_SIZE as int, encode_utf8(second)),
        input.offset == OUTPUT_SLOT_SIZE,
        input.length == encode_utf8(second).len(),
    ensures
        read_at(staged_second, input.offset as int, input.length as int) == encode_utf8(second),
        string_at(staged_second, input) == Ok::<Seq<char>, Fault>(second),
        forall|i: int|
            0 <= i < input.length ==> staged_second[input.offset + i] == encode_utf8(second)[i],
        0 + OUTPUT_SLOT_SIZE <= input.offset,
{
    vstd::utf8::encode_utf8_valid_utf8(second);
    vstd::utf8::encode_utf8_decode_utf8(second);
    assert forall|i: int| 0 <= i < input.length implies staged_second[input.offset + i]
        == encode_utf8(second)[i] by {
        assert(read_at(staged_second, input.offset as int, input.length as int)[i]
            == staged_second[input.offset + i]);
    }
}

/// The signed integer with the same 32 bits as `v`.
pub open spec fn wire_value(v: u32) -> int {
    if v <= 0x7fff_ffff {
        v as int
    } else {
        v - 0x1_0000_0000
    }
}

/// An offset or a length as the signed integer that travels to the plugin,
/// which reads its bits as unsigned again.
pub fn wire(v: u32) -> (w: i32)
    ensures
        w == wire_value(v),
{
    if v <= 0x7fff_ffff {
        v as i32
    } else {
        (v - 0x8000_0000) as i32 + i32::MIN
    }
}

/// What the plugin's `greet` is called with, in the order of the
/// convention: where the result goes, where the name starts, how long the
/// name is.
pub fn greet_arguments(slot: u32, input: StringRef) -> (arguments: (i32, i32, i32))
    ensures
        arguments.0 == wire_value(slot),
        arguments.1 == wire_value(input.offset),
        arguments.2 == wire_value(input.length),
{
    (wire(slot), wire(input.offset), wire(input.length))
}

/// After a call, whatever it answered, the next allocation starts at
/// offset 0, and the memory is no shorter than before the call.
pub proof fn lemma_allocation_after_call(
    before: RawInstance,
    after: RawInstance,
    needed: nat,
    reply: Result<String, HostError>,
    size: u32,
)
    requires
        raw_call_result(before, after, needed, reply),
    ensures
        after.cursor() == 0,
        after.cursor_state().bumped(size).0 == 0,
        after.memory().len() >= before.memory().len(),
{
    after.lemma_cursor_view();
    after.cursor_state().lemma_views(size);
}

/// Makes one function in the store for each host function, in their order.
fn provide(store: &mut wasmtime::Store<()>, functions: &Vec<HostFunction>) -> (imports: Vec<
    wasmtime::Func,
>)
    ensures
        store_id(*final(store)) == store_id(*old(store)),
        imports@.len() == functions@.len(),
        forall|i: int| 0 <= i < imports@.len() ==> func_owner(imports@[i]) == store_id(*old(store)),
{
    let mut imports: Vec<wasmtime::Func> = Vec::new();
    let mut i: usize = 0;
    while i < functions.len()
        invariant
            i <= functions@.len(),
            imports@.len() == i,
            store_id(*store) == store_id(*old(store)),
            forall|k: int| 0 <= k < imports@.len() ==> func_owner(imports@[k]) == store_id(*old(store)),
        decreases functions@.len() - i,
    {
        let func = host_func(store, functions[i]);
        imports.push(func);
        i += 1;
    }
    imports
}

} // verus!
