//! The sandbox engine, wasmtime, as this crate sees it.
//!
//! Nothing in this file is proved. Each function makes one call into
//! wasmtime and states what the crate relies on from it; the spec functions
//! without a body name what the engine holds and cannot be computed here.
//! Everything else in the crate is verified against these statements.

use crate::memory::write_at;
use crate::registry::{import_views, HostFunction, ImportDecl, ImportKind, ImportView};
use vstd::prelude::*;
use wasmtime::component::types::ComponentItem;

verus! {

/// `wasmtime::Config`, opaque: the settings an engine is made from.
#[verifier::external_type_specification]
#[verifier::external_body]
pub struct ExConfig(wasmtime::Config);

/// `wasmtime::Engine`, opaque: compiles modules and components.
#[verifier::external_type_specification]
#[verifier::external_body]
pub struct ExEngine(wasmtime::Engine);

/// `wasmtime::Module`, opaque: a compiled core module.
#[verifier::external_type_specification]
#[verifier::external_body]
pub struct ExModule(wasmtime::Module);

/// `wasmtime::Store`, opaque: owns every instance, memory and function made
/// in it.
#[verifier::external_type_specification]
#[verifier::external_body]
#[verifier::reject_recursive_types(T)]
pub struct ExStore<T: 'static>(wasmtime::Store<T>);

/// `wasmtime::Instance`, opaque: a handle to an instantiated module.
#[verifier::external_type_specification]
#[verifier::external_body]
pub struct ExInstance(wasmtime::Instance);

/// `wasmtime::Memory`, opaque: a handle to a linear memory in a store.
#[verifier::external_type_specification]
#[verifier::external_body]
pub struct ExMemory(wasmtime::Memory);

/// `wasmtime::Func`, opaque: a handle to a function in a store.
#[verifier::external_type_specification]
#[verifier::external_body]
pub struct ExFunc(wasmtime::Func);

/// `wasmtime::TypedFunc`, opaque: a function handle whose type was checked.
#[verifier::external_type_specification]
#[verifier::external_body]
#[verifier::reject_recursive_types(Params)]
#[verifier::reject_recursive_types(Results)]
pub struct ExTypedFunc<Params, Results>(wasmtime::TypedFunc<Params, Results>);

/// `wasmtime::Error`, opaque: why a call into the engine failed.
#[verifier::external_type_specification]
#[verifier::external_body]
pub struct ExError(wasmtime::Error);

/// `wasmtime::MemoryAccessError`, opaque: a read or write left the memory.
#[verifier::external_type_specification]
#[verifier::external_body]
pub struct ExMemoryAccessError(wasmtime::MemoryAccessError);

/// `wasmtime::component::Component`, opaque: a compiled component.
#[verifier::external_type_specification]
#[verifier::external_body]
pub struct ExComponent(wasmtime::component::Component);

/// `wasmtime::component::Linker`, opaque: the definitions that satisfy a
/// component's imports.
#[verifier::external_type_specification]
#[verifier::external_body]
#[verifier::reject_recursive_types(T)]
pub struct ExComponentLinker<T: 'static>(wasmtime::component::Linker<T>);

/// `wasmtime::component::Instance`, opaque: a handle to an instantiated
/// component.
#[verifier::external_type_specification]
#[verifier::external_body]
pub struct ExComponentInstance(wasmtime::component::Instance);

/// `wasmtime::component::ComponentExportIndex`, opaque: where an export of
/// a component is found.
#[verifier::external_type_specification]
#[verifier::external_body]
pub struct ExComponentExportIndex(wasmtime::component::ComponentExportIndex);

/// `wasmtime::component::TypedFunc`, opaque: a component's function whose
/// type was checked.
#[verifier::external_type_specification]
#[verifier::external_body]
#[verifier::reject_recursive_types(Params)]
#[verifier::reject_recursive_types(Return)]
pub struct ExComponentTypedFunc<Params, Return>(wasmtime::component::TypedFunc<Params, Return>);

/// The identity of a store. Wasmtime gives each store an id and panics when
/// a handle is used with a store that does not own it.
pub uninterp spec fn store_id(store: wasmtime::Store<()>) -> int;

/// The id of the store that owns a host function.
pub uninterp spec fn func_owner(func: wasmtime::Func) -> int;

/// The id of the store that owns an instance.
pub uninterp spec fn instance_owner(instance: wasmtime::Instance) -> int;

/// The id of the store that owns a memory.
pub uninterp spec fn memory_owner(memory: wasmtime::Memory) -> int;

/// The id of the store that owns an exported function of one parameter.
pub uninterp spec fn unary_owner(func: wasmtime::TypedFunc<(i32,), ()>) -> int;

/// The id of the store that owns an exported function of three parameters.
pub uninterp spec fn ternary_owner(func: wasmtime::TypedFunc<(i32, i32, i32), ()>) -> int;

/// The id of the store that owns an instance of a component.
pub uninterp spec fn component_owner(instance: wasmtime::component::Instance) -> int;

/// The id of the store that owns a component's function from nothing to a
/// string.
pub uninterp spec fn teller_owner(func: wasmtime::component::TypedFunc<(), (String,)>) -> int;

/// The id of the store that owns a component's function from a string to a
/// string.
pub uninterp spec fn answerer_owner(
    func: wasmtime::component::TypedFunc<(String,), (String,)>,
) -> int;

/// The binary that a module was compiled from.
pub uninterp spec fn module_source(module: wasmtime::Module) -> Seq<u8>;

/// The imports that a module declares, in the order of its binary.
pub uninterp spec fn declared_imports(module: wasmtime::Module) -> Seq<ImportView>;

/// The binary of the module that an instance was made from.
pub uninterp spec fn instance_source(instance: wasmtime::Instance) -> Seq<u8>;

/// Whether an instance exports, under `name`, a function from one `i32` to
/// nothing.
pub uninterp spec fn exports_unary(instance: wasmtime::Instance, name: Seq<char>) -> bool;

/// Whether an instance exports, under `name`, a function from three `i32`
/// to nothing.
pub uninterp spec fn exports_ternary(instance: wasmtime::Instance, name: Seq<char>) -> bool;

/// The page size of the memory that an instance exports under `name`, if
/// it exports one.
pub uninterp spec fn exported_page_bytes(instance: wasmtime::Instance, name: Seq<char>) -> Option<
    nat,
>;

/// The binary that a component was compiled from.
pub uninterp spec fn component_source(component: wasmtime::component::Component) -> Seq<u8>;

/// The imports that a component declares.
pub uninterp spec fn component_declared_imports(
    component: wasmtime::component::Component,
) -> Seq<ImportView>;

/// The binary of the component that an instance was made from.
pub uninterp spec fn component_instance_source(instance: wasmtime::component::Instance) -> Seq<u8>;

/// Where the export `name` of a component's instance is found, at its root
/// or within the exported instance found at `within`; nothing where there
/// is no such export.
pub uninterp spec fn component_export_at(
    instance: wasmtime::component::Instance,
    within: Option<wasmtime::component::ComponentExportIndex>,
    name: Seq<char>,
) -> Option<wasmtime::component::ComponentExportIndex>;

/// Whether the export found at `at` is a function from nothing to a string.
pub uninterp spec fn component_is_teller(
    instance: wasmtime::component::Instance,
    at: wasmtime::component::ComponentExportIndex,
) -> bool;

/// Whether the export found at `at` is a function from a string to a
/// string.
pub uninterp spec fn component_is_answerer(
    instance: wasmtime::component::Instance,
    at: wasmtime::component::ComponentExportIndex,
) -> bool;

/// The bytes that a memory holds in the store that owns it.
pub uninterp spec fn memory_bytes(store: wasmtime::Store<()>, memory: wasmtime::Memory) -> Seq<u8>;

/// The size in bytes of one page of a memory, fixed by the memory's type.
pub uninterp spec fn page_bytes(memory: wasmtime::Memory) -> nat;

/// `wasmtime::Config::new`: the default configuration.
#[verifier::external_body]
pub(crate) fn config_new() -> wasmtime::Config {
    wasmtime::Config::new()
}

/// `wasmtime::Config::wasm_component_model`: switches support for
/// components on or off in `config`.
#[verifier::external_body]
pub(crate) fn config_component_model(config: &mut wasmtime::Config, enable: bool) {
    wasmtime::Config::wasm_component_model(config, enable);
}

/// `wasmtime::Config::memory_reservation`: how many bytes of address space
/// the engine sets aside for a memory when it is made.
#[verifier::external_body]
pub(crate) fn config_memory_reservation(config: &mut wasmtime::Config, bytes: u64) {
    wasmtime::Config::memory_reservation(config, bytes);
}

/// `wasmtime::Config::memory_reservation_for_growth`: how many bytes of
/// address space the engine adds behind a memory that it had to move.
#[verifier::external_body]
pub(crate) fn config_memory_reservation_for_growth(config: &mut wasmtime::Config, bytes: u64) {
    wasmtime::Config::memory_reservation_for_growth(config, bytes);
}

/// `wasmtime::Config::memory_guard_size`: how many inaccessible bytes the
/// engine keeps behind a memory.
#[verifier::external_body]
pub(crate) fn config_memory_guard_size(config: &mut wasmtime::Config, bytes: u64) {
    wasmtime::Config::memory_guard_size(config, bytes);
}

/// `wasmtime::Engine::new`. It fails on a configuration that wasmtime finds
/// inconsistent; nothing is claimed of when.
#[verifier::external_body]
pub(crate) fn engine_new(config: &wasmtime::Config) -> Result<wasmtime::Engine, wasmtime::Error> {
    wasmtime::Engine::new(config)
}

/// `wasmtime::Module::new`: decodes, validates and compiles a module. It
/// fails on bytes that are no valid module for the engine; nothing is
/// claimed of when. Trusted: the module it gives was compiled from `bytes`.
#[verifier::external_body]
pub(crate) fn module_new(engine: &wasmtime::Engine, bytes: &[u8]) -> (made: Result<
    wasmtime::Module,
    wasmtime::Error,
>)
    ensures
        made matches Ok(module) ==> module_source(module) == bytes@,
{
    wasmtime::Module::new(engine, bytes)
}

/// `wasmtime::Module::imports`: the imports a module declares, in the order
/// in which `wasmtime::Instance::new` expects them, each converted to its
/// names and its kind. Trusted: they depend on the module alone, which is
/// what `declared_imports` names.
#[verifier::external_body]
pub(crate) fn module_imports(module: &wasmtime::Module) -> (imports: Vec<ImportDecl>)
    ensures
        import_views(imports@) == declared_imports(*module),
{
    wasmtime::Module::imports(module).map(
        |i|
            ImportDecl {
                module: i.module().to_string(),
                name: i.name().to_string(),
                kind: match i.ty() {
                    wasmtime::ExternType::Func(_) => ImportKind::Function,
                    wasmtime::ExternType::Global(_) => ImportKind::Global,
                    wasmtime::ExternType::Table(_) => ImportKind::Table,
                    wasmtime::ExternType::Memory(_) => ImportKind::Memory,
                    wasmtime::ExternType::Tag(_) => ImportKind::Tag,
                },
            },
    ).collect()
}

/// `wasmtime::Store::new` with no host data.
#[verifier::external_body]
pub(crate) fn store_new(engine: &wasmtime::Engine) -> wasmtime::Store<()> {
    wasmtime::Store::new(engine, ())
}

/// `wasmtime::Func::wrap`: a function in `store` that takes nothing and
/// returns what a call of `function` returns. Trusted: the store keeps its
/// identity and owns the new function.
#[verifier::external_body]
pub(crate) fn host_func(store: &mut wasmtime::Store<()>, function: HostFunction) -> (func:
    wasmtime::Func)
    ensures
        store_id(*final(store)) == store_id(*old(store)),
        func_owner(func) == store_id(*old(store)),
{
    wasmtime::Func::wrap(store, move || -> i32 { function.invoke() })
}

/// `wasmtime::Instance::new` with functions as the only imports. Wasmtime
/// documents a panic for an import that the store does not own, which the
/// precondition rules out. Trusted: the store keeps its identity and owns
/// the instance, and the instance is one of `module`, so that it comes from
/// the binary the module was compiled from. It fails when the imports do
/// not match the module's, when a start function traps or when a limit is
/// exceeded; nothing is claimed of when.
#[verifier::external_body]
pub(crate) fn instance_new(
    store: &mut wasmtime::Store<()>,
    module: &wasmtime::Module,
    imports: &Vec<wasmtime::Func>,
) -> (made: Result<wasmtime::Instance, wasmtime::Error>)
    requires
        forall|i: int| 0 <= i < imports@.len() ==> func_owner(imports@[i]) == store_id(*old(store)),
    ensures
        store_id(*final(store)) == store_id(*old(store)),
        made matches Ok(instance) ==> instance_owner(instance) == store_id(*old(store)),
        made matches Ok(instance) ==> instance_source(instance) == module_source(*module),
{
    let externs: Vec<wasmtime::Extern> = imports.iter().map(|f| wasmtime::Extern::Func(*f)).collect();
    wasmtime::Instance::new(store, module, &externs)
}

/// `wasmtime::Instance::get_typed_func` for a function from one `i32` to
/// nothing. It panics for a store that does not own the instance, which the
/// precondition rules out. Trusted: the store keeps its identity and owns
/// the function. It fails exactly when no function of that name and type is
/// exported, which depends on the instance and the name alone and is what
/// `exports_unary` names.
#[verifier::external_body]
pub(crate) fn export_unary(
    store: &mut wasmtime::Store<()>,
    instance: &wasmtime::Instance,
    name: &str,
) -> (found: Result<wasmtime::TypedFunc<(i32,), ()>, wasmtime::Error>)
    requires
        instance_owner(*instance) == store_id(*old(store)),
    ensures
        store_id(*final(store)) == store_id(*old(store)),
        found matches Ok(func) ==> unary_owner(func) == store_id(*old(store)),
        found.is_ok() == exports_unary(*instance, name@),
{
    wasmtime::Instance::get_typed_func::<(i32,), ()>(instance, store, name)
}

/// `wasmtime::Instance::get_typed_func` for a function from three `i32` to
/// nothing; otherwise as [`export_unary`], with `exports_ternary` as the
/// name.
#[verifier::external_body]
pub(crate) fn export_ternary(
    store: &mut wasmtime::Store<()>,
    instance: &wasmtime::Instance,
    name: &str,
) -> (found: Result<wasmtime::TypedFunc<(i32, i32, i32), ()>, wasmtime::Error>)
    requires
        instance_owner(*instance) == store_id(*old(store)),
    ensures
        store_id(*final(store)) == store_id(*old(store)),
        found matches Ok(func) ==> ternary_owner(func) == store_id(*old(store)),
        found.is_ok() == exports_ternary(*instance, name@),
{
    wasmtime::Instance::get_typed_func::<(i32, i32, i32), ()>(instance, store, name)
}

/// `wasmtime::Instance::get_memory`: the exported memory of that name, if
/// there is one. It panics for a store that does not own the instance, which
/// the precondition rules out. Trusted: the store keeps its identity and
/// owns the memory. Whether there is one depends on the instance and the
/// name alone; `exported_page_bytes` names the page size of the memory
/// found.
#[verifier::external_body]
pub(crate) fn export_memory(
    store: &mut wasmtime::Store<()>,
    instance: &wasmtime::Instance,
    name: &str,
) -> (found: Option<wasmtime::Memory>)
    requires
        instance_owner(*instance) == store_id(*old(store)),
    ensures
        store_id(*final(store)) == store_id(*old(store)),
        found matches Some(memory) ==> memory_owner(memory) == store_id(*old(store)),
        found.is_some() == exported_page_bytes(*instance, name@).is_some(),
        found matches Some(memory) ==> exported_page_bytes(*instance, name@) == Some(
            page_bytes(memory),
        ),
{
    wasmtime::Instance::get_memory(instance, store, name)
}

/// `wasmtime::Memory::page_size`: the size in bytes of a page of the memory.
#[verifier::external_body]
pub(crate) fn memory_page_size(store: &wasmtime::Store<()>, memory: &wasmtime::Memory) -> (size:
    u64)
    requires
        memory_owner(*memory) == store_id(*store),
    ensures
        size == page_bytes(*memory),
{
    wasmtime::Memory::page_size(memory, store)
}

/// `wasmtime::Memory::data_size`: the length in bytes of the memory.
#[verifier::external_body]
pub(crate) fn memory_size(store: &wasmtime::Store<()>, memory: &wasmtime::Memory) -> (size: usize)
    requires
        memory_owner(*memory) == store_id(*store),
    ensures
        size == memory_bytes(*store, *memory).len(),
{
    wasmtime::Memory::data_size(memory, store)
}

/// `wasmtime::Memory::grow`. Trusted: on success the memory is `pages`
/// pages longer, what it held stays where it was, and the result is the
/// number of pages it had before; on failure it is unchanged. Whether the
/// engine grants the growth is its own decision. Wasmtime caps the size it
/// aims for at one page below what a `usize` can count; the precondition
/// keeps the request under that cap, where the size aimed for is the sum.
#[verifier::external_body]
pub(crate) fn memory_grow(
    store: &mut wasmtime::Store<()>,
    memory: &wasmtime::Memory,
    pages: u64,
) -> (grown: Result<u64, wasmtime::Error>)
    requires
        memory_owner(*memory) == store_id(*old(store)),
        memory_bytes(*old(store), *memory).len() + (pages + 1) * page_bytes(*memory) <= usize::MAX
            + 1,
    ensures
        store_id(*final(store)) == store_id(*old(store)),
        match grown {
            Ok(before) => {
                &&& memory_bytes(*final(store), *memory).len() == memory_bytes(
                    *old(store),
                    *memory,
                ).len() + pages * page_bytes(*memory)
                &&& memory_bytes(*final(store), *memory).subrange(
                    0,
                    memory_bytes(*old(store), *memory).len() as int,
                ) == memory_bytes(*old(store), *memory)
                &&& before * page_bytes(*memory) == memory_bytes(*old(store), *memory).len()
            },
            Err(_) => memory_bytes(*final(store), *memory) == memory_bytes(*old(store), *memory),
        },
{
    wasmtime::Memory::grow(memory, store, pages)
}

/// `wasmtime::Memory::read` into a fresh buffer of `len` bytes. Trusted: a
/// range inside the memory is read whole.
#[verifier::external_body]
pub(crate) fn memory_read(
    store: &wasmtime::Store<()>,
    memory: &wasmtime::Memory,
    offset: usize,
    len: usize,
) -> (read: Result<Vec<u8>, wasmtime::MemoryAccessError>)
    requires
        memory_owner(*memory) == store_id(*store),
        offset + len <= memory_bytes(*store, *memory).len(),
    ensures
        read.is_ok(),
        read matches Ok(bytes) ==> bytes@ == memory_bytes(*store, *memory).subrange(
            offset as int,
            offset + len,
        ),
{
    let mut buffer: Vec<u8> = vec![0u8; len];
    wasmtime::Memory::read(memory, store, offset, &mut buffer)?;
    Ok(buffer)
}

/// `wasmtime::Memory::write`. Trusted: a range inside the memory is written
/// whole and nothing else changes; for any other range the call fails and
/// nothing is written.
#[verifier::external_body]
pub(crate) fn memory_write(
    store: &mut wasmtime::Store<()>,
    memory: &wasmtime::Memory,
    offset: usize,
    bytes: &[u8],
) -> (written: Result<(), wasmtime::MemoryAccessError>)
    requires
        memory_owner(*memory) == store_id(*old(store)),
    ensures
        store_id(*final(store)) == store_id(*old(store)),
        written.is_ok() == (offset + bytes@.len() <= memory_bytes(*old(store), *memory).len()),
        written.is_ok() ==> memory_bytes(*final(store), *memory) == write_at(
            memory_bytes(*old(store), *memory),
            offset as int,
            bytes@,
        ),
        written.is_err() ==> memory_bytes(*final(store), *memory) == memory_bytes(
            *old(store),
            *memory,
        ),
{
    wasmtime::Memory::write(memory, store, offset, bytes)
}

/// `wasmtime::TypedFunc::call` with one argument. The plugin's code runs:
/// it may change and grow any memory of the store, and it may trap, which
/// is the error. Trusted: the store keeps its identity, and no memory of
/// the store is shorter afterwards; wasmtime changes the size of a memory
/// only where it grows it.
#[verifier::external_body]
pub(crate) fn call_unary(
    store: &mut wasmtime::Store<()>,
    func: &wasmtime::TypedFunc<(i32,), ()>,
    a: i32,
) -> (returned: Result<(), wasmtime::Error>)
    requires
        unary_owner(*func) == store_id(*old(store)),
    ensures
        store_id(*final(store)) == store_id(*old(store)),
        forall|memory: wasmtime::Memory|
            memory_owner(memory) == store_id(*old(store)) ==> (#[trigger] memory_bytes(
                *final(store),
                memory,
            )).len() >= memory_bytes(*old(store), memory).len(),
{
    wasmtime::TypedFunc::call(func, store, (a,))
}

/// `wasmtime::TypedFunc::call` with three arguments, handed on as the
/// triple they come in; otherwise as [`call_unary`].
#[verifier::external_body]
pub(crate) fn call_ternary(
    store: &mut wasmtime::Store<()>,
    func: &wasmtime::TypedFunc<(i32, i32, i32), ()>,
    arguments: (i32, i32, i32),
) -> (returned: Result<(), wasmtime::Error>)
    requires
        ternary_owner(*func) == store_id(*old(store)),
    ensures
        store_id(*final(store)) == store_id(*old(store)),
        forall|memory: wasmtime::Memory|
            memory_owner(memory) == store_id(*old(store)) ==> (#[trigger] memory_bytes(
                *final(store),
                memory,
            )).len() >= memory_bytes(*old(store), memory).len(),
{
    wasmtime::TypedFunc::call(func, store, arguments)
}

/// `wasmtime::component::Component::new`: decodes, validates and compiles a
/// component. It fails on bytes that are no valid component for the engine;
/// nothing is claimed of when. Trusted: the component it gives was compiled
/// from `bytes`.
#[verifier::external_body]
pub(crate) fn component_new(engine: &wasmtime::Engine, bytes: &[u8]) -> (made: Result<
    wasmtime::component::Component,
    wasmtime::Error,
>)
    ensures
        made matches Ok(component) ==> component_source(component) == bytes@,
{
    wasmtime::component::Component::new(engine, bytes)
}

/// `wasmtime::component::Component::component_type` and its `imports`,
/// read with the component's own engine: the imports a component declares,
/// each converted to its name and its kind. Trusted: they depend on the
/// component alone, which is what `component_declared_imports` names.
#[verifier::external_body]
pub(crate) fn component_imports(component: &wasmtime::component::Component) -> (imports: Vec<
    ImportDecl,
>)
    ensures
        import_views(imports@) == component_declared_imports(*component),
{
    let declared = wasmtime::component::Component::component_type(component);
    declared.imports(component.engine()).map(|(name, item)| ImportDecl {
        module: String::new(), name: name.to_string(),
        kind: match item {
            ComponentItem::ComponentFunc(_) => ImportKind::ComponentFunction,
            ComponentItem::CoreFunc(_) => ImportKind::CoreFunction,
            ComponentItem::Module(_) => ImportKind::Module,
            ComponentItem::Component(_) => ImportKind::Component,
            ComponentItem::ComponentInstance(_) => ImportKind::ComponentInstance,
            ComponentItem::Type(_) => ImportKind::Type,
            ComponentItem::Resource(_) => ImportKind::Resource,
        },
    }).collect()
}

/// `wasmtime::component::Linker::new`: a linker that defines nothing yet.
#[verifier::external_body]
pub(crate) fn component_linker_new(engine: &wasmtime::Engine) -> wasmtime::component::Linker<()> {
    wasmtime::component::Linker::new(engine)
}

/// `wasmtime::component::LinkerInstance::func_wrap` on the linker's root:
/// defines, under `name`, a function that takes nothing and returns what a
/// call of `function` returns, as an unsigned integer of 32 bits. It fails
/// when the name is taken.
#[verifier::external_body]
pub(crate) fn component_linker_func(
    linker: &mut wasmtime::component::Linker<()>,
    name: &str,
    function: HostFunction,
) -> Result<(), wasmtime::Error> {
    let mut root = wasmtime::component::Linker::root(linker);
    root.func_wrap(name, move |_, ()| Ok((function.invoke() as u32,)))
}

/// `wasmtime::component::Linker::instantiate`. Trusted: the store keeps its
/// identity and owns the instance, and the instance is one of `component`,
/// so that it comes from the binary the component was compiled from. It
/// fails when the linker does not define
/// what the component imports, with the type it imports it at, when
/// instantiation traps or when a limit is exceeded; nothing is claimed of
/// when.
#[verifier::external_body]
pub(crate) fn component_instantiate(
    linker: &wasmtime::component::Linker<()>,
    store: &mut wasmtime::Store<()>,
    component: &wasmtime::component::Component,
) -> (made: Result<wasmtime::component::Instance, wasmtime::Error>)
    ensures
        store_id(*final(store)) == store_id(*old(store)),
        made matches Ok(instance) ==> component_owner(instance) == store_id(*old(store)),
        made matches Ok(instance) ==> component_instance_source(instance) == component_source(
            *component,
        ),
{
    wasmtime::component::Linker::instantiate(linker, store, component)
}

/// `wasmtime::component::Instance::get_export_index`: where the export
/// `name` of the instance, or of the exported instance `within`, is found.
/// It panics for a store that does not own the instance, which the
/// precondition rules out. Trusted: the store keeps its identity, and what
/// is found depends on the instance, `within` and the name alone, which is
/// what `component_export_at` names.
#[verifier::external_body]
pub(crate) fn component_export_index(
    store: &mut wasmtime::Store<()>,
    instance: &wasmtime::component::Instance,
    within: &Option<wasmtime::component::ComponentExportIndex>,
    name: &str,
) -> (found: Option<wasmtime::component::ComponentExportIndex>)
    requires
        component_owner(*instance) == store_id(*old(store)),
    ensures
        store_id(*final(store)) == store_id(*old(store)),
        found == component_export_at(*instance, *within, name@),
{
    wasmtime::component::Instance::get_export_index(instance, store, within.as_ref(), name)
}

/// `wasmtime::component::Instance::get_typed_func` for a function from
/// nothing to a string. It panics for a store that does not own the
/// instance, which the precondition rules out. Trusted: the store keeps its
/// identity and owns the function. It fails exactly when the export is no
/// function of that type, which depends on the instance and the place
/// alone and is what `component_is_teller` names.
#[verifier::external_body]
pub(crate) fn component_export_teller(
    store: &mut wasmtime::Store<()>,
    instance: &wasmtime::component::Instance,
    at: &wasmtime::component::ComponentExportIndex,
) -> (found: Result<wasmtime::component::TypedFunc<(), (String,)>, wasmtime::Error>)
    requires
        component_owner(*instance) == store_id(*old(store)),
    ensures
        store_id(*final(store)) == store_id(*old(store)),
        found matches Ok(func) ==> teller_owner(func) == store_id(*old(store)),
        found.is_ok() == component_is_teller(*instance, *at),
{
    wasmtime::component::Instance::get_typed_func::<(), (String,)>(instance, store, at)
}

/// `wasmtime::component::Instance::get_typed_func` for a function from a
/// string to a string; otherwise as [`component_export_teller`], with
/// `component_is_answerer` as the name.
#[verifier::external_body]
pub(crate) fn component_export_answerer(
    store: &mut wasmtime::Store<()>,
    instance: &wasmtime::component::Instance,
    at: &wasmtime::component::ComponentExportIndex,
) -> (found: Result<wasmtime::component::TypedFunc<(String,), (String,)>, wasmtime::Error>)
    requires
        component_owner(*instance) == store_id(*old(store)),
    ensures
        store_id(*final(store)) == store_id(*old(store)),
        found matches Ok(func) ==> answerer_owner(func) == store_id(*old(store)),
        found.is_ok() == component_is_answerer(*instance, *at),
{
    wasmtime::component::Instance::get_typed_func::<(String,), (String,)>(instance, store, at)
}

/// `wasmtime::component::TypedFunc::call` and, after a call that returned,
/// the `post_return` that wasmtime demands before the next call. The
/// plugin's code runs; a trap in either step is the error. Both panic for a
/// store that does not own the function, which the precondition rules out.
/// Trusted: the store keeps its identity.
#[verifier::external_body]
pub(crate) fn component_call_teller(
    store: &mut wasmtime::Store<()>,
    func: &wasmtime::component::TypedFunc<(), (String,)>,
) -> (returned: Result<String, wasmtime::Error>)
    requires
        teller_owner(*func) == store_id(*old(store)),
    ensures
        store_id(*final(store)) == store_id(*old(store)),
{
    let (told,) = wasmtime::component::TypedFunc::call(func, &mut *store, ())?;
    wasmtime::component::TypedFunc::post_return(func, store)?;
    Ok(told)
}

/// As [`component_call_teller`], for a function that takes a string.
#[verifier::external_body]
pub(crate) fn component_call_answerer(
    store: &mut wasmtime::Store<()>,
    func: &wasmtime::component::TypedFunc<(String,), (String,)>,
    said: &str,
) -> (returned: Result<String, wasmtime::Error>)
    requires
        answerer_owner(*func) == store_id(*old(store)),
    ensures
        store_id(*final(store)) == store_id(*old(store)),
{
    let (answer,) = wasmtime::component::TypedFunc::call(func, &mut *store, (said.to_string(),))?;
    wasmtime::component::TypedFunc::post_return(func, store)?;
    Ok(answer)
}

} // verus!
