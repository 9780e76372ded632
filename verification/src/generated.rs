//! An instance bound under the generated-binding convention: a component
//! whose `language` and `greet` take and return strings, lowered and lifted
//! by the engine. The host sees no offsets and keeps no cursor.

use crate::binder::{binding_fault, check_exports, Convention, ExportsFound};
use crate::engine::{
    answerer_owner, component_call_answerer, component_call_teller, component_declared_imports,
    component_export_answerer, component_export_at, component_export_index,
    component_export_teller, component_imports, component_instance_source,
    component_instantiate, component_is_answerer, component_is_teller, component_linker_func,
    component_linker_new, component_new, component_owner, component_source, store_id, store_new,
    teller_owner,
};
use crate::error::{Fault, HostError};
use crate::registry::{import_fault, CapabilityRegistry, HostFunction, ImportDecl};
use crate::sandbox::{engine_result, start_engine};
use vstd::prelude::*;

verus! {

/// What the lookups of the generated-binding convention find in an
/// instance: `language` and `greet` as typed functions within the exported
/// instance `greeter`. No memory is looked for.
pub open spec fn generated_exports(instance: wasmtime::component::Instance) -> ExportsFound {
    ExportsFound {
        language: match component_export_at(instance, None, "greeter"@) {
            Some(greeter) => match component_export_at(instance, Some(greeter), "language"@) {
                Some(at) => component_is_teller(instance, at),
                None => false,
            },
            None => false,
        },
        greet: match component_export_at(instance, None, "greeter"@) {
            Some(greeter) => match component_export_at(instance, Some(greeter), "greet"@) {
                Some(at) => component_is_answerer(instance, at),
                None => false,
            },
            None => false,
        },
        memory_page_size: None,
    }
}

/// Whether instantiating the binary `bytes` with `offered` and binding it
/// under the generated-binding convention can end in `fault`: the engine
/// could not be set up or refused the instance, the bytes are no component,
/// a component compiled from them declares an import that nothing offered
/// satisfies, or an instance made from them lacks a function of the
/// convention.
pub open spec fn generated_start_fault(
    bytes: Seq<u8>,
    offered: Map<Seq<char>, HostFunction>,
    fault: Fault,
) -> bool {
    ||| fault == Fault::Engine
    ||| fault == Fault::Load
    ||| exists|component: wasmtime::component::Component|
        #[trigger] component_source(component) == bytes && import_fault(
            offered,
            component_declared_imports(component),
        ) == Some(fault)
    ||| exists|instance: wasmtime::component::Instance|
        #[trigger] component_instance_source(instance) == bytes && binding_fault(
            Convention::GeneratedBinding,
            generated_exports(instance),
        ) == Some(fault)
}

/// Whether the binary `bytes` can be started with `offered` under the
/// generated-binding convention: a component compiled from it declares no
/// import that is left unsatisfied, and an instance made from it has both
/// functions of the convention.
pub open spec fn generated_start_clean(
    bytes: Seq<u8>,
    offered: Map<Seq<char>, HostFunction>,
) -> bool {
    &&& exists|component: wasmtime::component::Component|
        #[trigger] component_source(component) == bytes && import_fault(
            offered,
            component_declared_imports(component),
        ).is_none()
    &&& exists|instance: wasmtime::component::Instance|
        #[trigger] component_instance_source(instance) == bytes && binding_fault(
            Convention::GeneratedBinding,
            generated_exports(instance),
        ).is_none()
}

/// Every fault of a start under the generated-binding convention is one of
/// instantiating and binding.
pub proof fn lemma_generated_start_fault(
    bytes: Seq<u8>,
    offered: Map<Seq<char>, HostFunction>,
    fault: Fault,
)
    requires
        generated_start_fault(bytes, offered, fault),
    ensures
        fault.of_binding(),
{
    if exists|component: wasmtime::component::Component|
        #[trigger] component_source(component) == bytes && import_fault(
            offered,
            component_declared_imports(component),
        ) == Some(fault) {
        let component = choose|component: wasmtime::component::Component|
            #[trigger] component_source(component) == bytes && import_fault(
                offered,
                component_declared_imports(component),
            ) == Some(fault);
        crate::registry::lemma_import_fault_names(offered, component_declared_imports(component));
    }
}

/// A live component with its two bound functions.
pub struct GeneratedInstance {
    store: wasmtime::Store<()>,
    language: wasmtime::component::TypedFunc<(), (String,)>,
    greet: wasmtime::component::TypedFunc<(String,), (String,)>,
}

impl GeneratedInstance {
    /// The functions belong to the store.
    pub closed spec fn wf(&self) -> bool {
        &&& teller_owner(self.language) == store_id(self.store)
        &&& answerer_owner(self.greet) == store_id(self.store)
    }

    /// Instantiates the component in `bytes` with the capabilities of
    /// `registry` as its imports and binds the functions `language` and
    /// `greet` of its exported instance `greeter`. What the engine makes of
    /// the bytes decides the outcome; the faults are those of loading, of
    /// resolving the imports against the registry, of instantiation and of
    /// binding, in that order.
    pub fn from_component(bytes: &[u8], registry: &CapabilityRegistry) -> (made: Result<
        GeneratedInstance,
        HostError,
    >)
        requires
            registry.wf(),
        ensures
            match made {
                Ok(instance) => instance.wf() && generated_start_clean(bytes@, registry@),
                Err(e) => generated_start_fault(bytes@, registry@, e@),
            },
    {
        let engine = match start_engine() {
            Ok(engine) => engine,
            Err(e) => {
                return Err(e);
            },
        };
        let component = match component_new(&engine, bytes) {
            Ok(component) => component,
            Err(_) => {
                return Err(HostError::Load);
            },
        };
        let declared: Vec<ImportDecl> = component_imports(&component);
        let functions: Vec<HostFunction> = match registry.resolve(&declared) {
            Ok(functions) => functions,
            Err(e) => {
                return Err(e);
            },
        };
        let mut linker = component_linker_new(&engine);
        let mut i: usize = 0;
        while i < declared.len()
            invariant
                i <= declared@.len(),
                functions@.len() == declared@.len(),
            decreases declared@.len() - i,
        {
            match component_linker_func(&mut linker, declared[i].name.as_str(), functions[i]) {
                Ok(_) => {},
                Err(_) => {
                    return Err(HostError::Engine);
                },
            }
            i += 1;
        }
        let mut store = store_new(&engine);
        let instance = match component_instantiate(&linker, &mut store, &component) {
            Ok(instance) => instance,
            Err(_) => {
                return Err(HostError::Engine);
            },
        };
        GeneratedInstance::bind(store, &instance)
    }

    /// Looks the functions up in the exported instance `greeter`, once, and
    /// keeps the handles for every later call.
    fn bind(store: wasmtime::Store<()>, instance: &wasmtime::component::Instance) -> (bound:
        Result<GeneratedInstance, HostError>)
        requires
            component_owner(*instance) == store_id(store),
        ensures
            match binding_fault(Convention::GeneratedBinding, generated_exports(*instance)) {
                Some(fault) => bound matches Err(e) && e@ == fault,
                None => bound matches Ok(generated) && generated.wf(),
            },
    {
        let mut store = store;
        let greeter = component_export_index(&mut store, instance, &None, "greeter");
        let language = match &greeter {
            Some(_) => match component_export_index(&mut store, instance, &greeter, "language") {
                Some(at) => component_export_teller(&mut store, instance, &at).ok(),
                None => None,
            },
            None => None,
        };
        let greet = match &greeter {
            Some(_) => match component_export_index(&mut store, instance, &greeter, "greet") {
                Some(at) => component_export_answerer(&mut store, instance, &at).ok(),
                None => None,
            },
            None => None,
        };
        let found = ExportsFound {
            language: language.is_some(),
            greet: greet.is_some(),
            memory_page_size: None,
        };
        match check_exports(Convention::GeneratedBinding, found) {
            Ok(_) => match (language, greet) {
                (Some(language), Some(greet)) => Ok(GeneratedInstance { store, language, greet }),
                _ => Err(HostError::Binding { export: "language".to_owned() }),
            },
            Err(e) => Err(e),
        }
    }

    /// Asks the plugin for its language. The answer is the plugin's own;
    /// the only fault is the engine's, when the call traps or the answer
    /// cannot be lifted.
    pub fn call_language(&mut self) -> (reply: Result<String, HostError>)
        requires
            old(self).wf(),
        ensures
            final(self).wf(),
            reply matches Err(e) ==> e@ == Fault::Engine,
    {
        engine_result(component_call_teller(&mut self.store, &self.language))
    }

    /// Greets `name` through the plugin. The answer is the plugin's own;
    /// the only fault is the engine's, when the call traps or a string
    /// cannot be lowered or lifted.
    pub fn call_greet(&mut self, name: &str) -> (reply: Result<String, HostError>)
        requires
            old(self).wf(),
        ensures
            final(self).wf(),
            reply matches Err(e) ==> e@ == Fault::Engine,
    {
        engine_result(component_call_answerer(&mut self.store, &self.greet, name))
    }
}

} // verus!
