//! One interface over both conventions. The convention is fixed when a
//! plugin is instantiated; a call never asks which one it is talking to.

use crate::binder::{convention_of, Convention};
use crate::error::{Fault, HostError};
use crate::generated::{generated_start_clean, generated_start_fault, GeneratedInstance};
use crate::abi::OUTPUT_SLOT_SIZE;
use crate::raw::{raw_call_result, raw_start_clean, raw_start_fault, RawInstance};
use crate::registry::{CapabilityRegistry, HostFunction};
use vstd::prelude::*;
use vstd::utf8::encode_utf8;

verus! {

/// The bytes of a plugin and the name it is shown under. Instantiating it
/// uses it up.
#[derive(Debug)]
pub struct PluginModule {
    pub name: String,
    pub bytes: Vec<u8>,
}

/// A live plugin: its memory or component state and its bound functions.
/// It belongs to one caller at a time and is dropped after use.
pub enum PluginInstance {
    RawPointer(RawInstance),
    GeneratedBinding(GeneratedInstance),
}

/// Whether instantiating and binding the binary `bytes` with `offered` can
/// end in `fault`, by the convention that the binary calls for.
pub open spec fn start_fault(
    bytes: Seq<u8>,
    offered: Map<Seq<char>, HostFunction>,
    fault: Fault,
) -> bool {
    match convention_of(bytes) {
        None => fault == Fault::Load,
        Some(Convention::RawPointer) => raw_start_fault(bytes, offered, fault),
        Some(Convention::GeneratedBinding) => generated_start_fault(bytes, offered, fault),
    }
}

/// Whether the binary `bytes` can be started with `offered`, by the
/// convention that the binary calls for.
pub open spec fn start_clean(bytes: Seq<u8>, offered: Map<Seq<char>, HostFunction>) -> bool {
    match convention_of(bytes) {
        None => false,
        Some(Convention::RawPointer) => raw_start_clean(bytes, offered),
        Some(Convention::GeneratedBinding) => generated_start_clean(bytes, offered),
    }
}

/// Every fault of a start is one of instantiating and binding.
pub proof fn lemma_start_fault(
    bytes: Seq<u8>,
    offered: Map<Seq<char>, HostFunction>,
    fault: Fault,
)
    requires
        start_fault(bytes, offered, fault),
    ensures
        fault.of_binding(),
{
    match convention_of(bytes) {
        None => {},
        Some(Convention::RawPointer) => {
            crate::raw::lemma_raw_start_fault(bytes, offered, fault);
        },
        Some(Convention::GeneratedBinding) => {
            crate::generated::lemma_generated_start_fault(bytes, offered, fault);
        },
    }
}

/// What a call owes under the convention of the instance. `needed` is
/// the number of bytes that the raw-pointer convention stages for it: the
/// output slot and, for a greeting, the bytes of the name.
pub open spec fn call_result(
    before: PluginInstance,
    after: PluginInstance,
    needed: nat,
    reply: Result<String, HostError>,
) -> bool {
    match (before, after) {
        (PluginInstance::RawPointer(before), PluginInstance::RawPointer(after)) => raw_call_result(
            before,
            after,
            needed,
            reply,
        ),
        (PluginInstance::GeneratedBinding(_), PluginInstance::GeneratedBinding(_)) => reply
            matches Err(e) ==> e@ == Fault::Engine,
        _ => false,
    }
}

impl PluginInstance {
    pub open spec fn wf(&self) -> bool {
        match self {
            PluginInstance::RawPointer(raw) => raw.wf(),
            PluginInstance::GeneratedBinding(generated) => generated.wf(),
        }
    }

    /// The convention the instance was bound under.
    pub open spec fn bound_as(&self) -> Convention {
        match self {
            PluginInstance::RawPointer(_) => Convention::RawPointer,
            PluginInstance::GeneratedBinding(_) => Convention::GeneratedBinding,
        }
    }

    /// A call fails with a fault of calls only.
    pub proof fn lemma_call_faults(
        before: PluginInstance,
        after: PluginInstance,
        needed: nat,
        reply: Result<String, HostError>,
    )
        requires
            call_result(before, after, needed, reply),
        ensures
            reply matches Err(e) ==> e@.of_call(),
    {
    }

    /// The convention the instance was bound under.
    pub fn convention(&self) -> (convention: Convention)
        ensures
            convention == self.bound_as(),
    {
        match self {
            PluginInstance::RawPointer(_) => Convention::RawPointer,
            PluginInstance::GeneratedBinding(_) => Convention::GeneratedBinding,
        }
    }

    /// Asks the plugin for its language.
    pub fn call_language(&mut self) -> (reply: Result<String, HostError>)
        requires
            old(self).wf(),
        ensures
            final(self).wf(),
            call_result(*old(self), *final(self), OUTPUT_SLOT_SIZE as nat, reply),
    {
        match self {
            PluginInstance::RawPointer(raw) => raw.call_language(),
            PluginInstance::GeneratedBinding(generated) => generated.call_language(),
        }
    }

    /// Greets `name` through the plugin.
    pub fn call_greet(&mut self, name: &str) -> (reply: Result<String, HostError>)
        requires
            old(self).wf(),
        ensures
            final(self).wf(),
            call_result(
                *old(self),
                *final(self),
                (OUTPUT_SLOT_SIZE + encode_utf8(name@).len()) as nat,
                reply,
            ),
    {
        match self {
            PluginInstance::RawPointer(raw) => raw.call_greet(name),
            PluginInstance::GeneratedBinding(generated) => generated.call_greet(name),
        }
    }
}

impl PluginModule {
    /// Instantiates the plugin under the convention that its binary calls
    /// for and binds its functions. Bytes that are neither a module nor a
    /// component fail to load.
    pub fn into_instance(self, registry: &CapabilityRegistry) -> (made: Result<
        PluginInstance,
        HostError,
    >)
        requires
            registry.wf(),
        ensures
            convention_of(self.bytes@).is_none() ==> (made matches Err(e) && e@ == Fault::Load),
            made matches Ok(instance) ==> instance.wf() && convention_of(self.bytes@) == Some(
                instance.bound_as(),
            ),
            made matches Ok(PluginInstance::RawPointer(raw)) ==> raw.cursor() == 0,
            made matches Ok(_) ==> start_clean(self.bytes@, registry@),
            made matches Err(e) ==> start_fault(self.bytes@, registry@, e@),
    {
        match Convention::of_binary(self.bytes.as_slice()) {
            None => Err(HostError::Load),
            Some(Convention::RawPointer) => match RawInstance::from_module(
                self.bytes.as_slice(),
                registry,
            ) {
                Ok(raw) => Ok(PluginInstance::RawPointer(raw)),
                Err(e) => Err(e),
            },
            Some(Convention::GeneratedBinding) => match GeneratedInstance::from_component(
                self.bytes.as_slice(),
                registry,
            ) {
                Ok(generated) => Ok(PluginInstance::GeneratedBinding(generated)),
                Err(e) => Err(e),
            },
        }
    }
}

} // verus!
