//! What a run does around its plugins: it takes the name to greet from the
//! command line and words what it prints.

use crate::abi::OUTPUT_SLOT_SIZE;
use crate::binder::convention_of;
use crate::error::{Fault, HostError};
use crate::plugin::{call_result, start_clean, start_fault, PluginInstance, PluginModule};
use crate::registry::{CapabilityRegistry, HostFunction};
use vstd::prelude::*;
use vstd::string::StringExecFns;
use vstd::utf8::encode_utf8;

verus! {

/// What one plugin answered.
#[derive(Debug, PartialEq, Eq)]
pub struct Greeting {
    pub language: String,
    pub greeting: String,
}

/// The name to greet: the one argument after the program's own name. Any
/// other number of arguments is a usage error.
pub fn name_from_args(args: &Vec<String>) -> (name: Result<String, HostError>)
    ensures
        match name {
            Ok(name) => args@.len() == 2 && name@ == args@[1]@,
            Err(e) => args@.len() != 2 && e@ == Fault::Usage,
        },
{
    if args.len() != 2 {
        return Err(HostError::Usage);
    }
    Ok(args[1].clone())
}

/// What a success of a plugin's life amounts to: the plugin could be
/// started with what was offered and was bound under the convention of its
/// binary, the language is what the call for
/// the language answered on the bound instance, and the greeting is what
/// the call to greet `who` answered on the instance as the first call left
/// it.
pub open spec fn answered_by(
    bytes: Seq<u8>,
    offered: Map<Seq<char>, HostFunction>,
    who: Seq<char>,
    answer: Greeting,
) -> bool {
    exists|bound: PluginInstance, asked: PluginInstance, greeted: PluginInstance|
        {
            &&& bound.wf()
            &&& start_clean(bytes, offered)
            &&& convention_of(bytes) == Some(bound.bound_as())
            &&& #[trigger] call_result(
                bound,
                asked,
                OUTPUT_SLOT_SIZE as nat,
                Ok::<String, HostError>(answer.language),
            )
            &&& #[trigger] call_result(
                asked,
                greeted,
                (OUTPUT_SLOT_SIZE + encode_utf8(who).len()) as nat,
                Ok::<String, HostError>(answer.greeting),
            )
        }
}

/// Takes one plugin through its whole life: instantiate, bind, ask for the
/// language, greet `who`, drop. The first failure ends it; nothing is tried
/// again.
pub fn greet_through(module: PluginModule, who: &str, registry: &CapabilityRegistry) -> (answered:
    Result<Greeting, HostError>)
    requires
        registry.wf(),
    ensures
        convention_of(module.bytes@).is_none() ==> (answered matches Err(e) && e@ == Fault::Load),
        answered matches Ok(answer) ==> answered_by(module.bytes@, registry@, who@, answer),
        answered matches Err(e) ==> start_fault(module.bytes@, registry@, e@) || e@.of_call(),
{
    let mut instance = match module.into_instance(registry) {
        Ok(instance) => instance,
        Err(e) => {
            return Err(e);
        },
    };
    let ghost bound = instance;
    let asked = instance.call_language();
    proof {
        PluginInstance::lemma_call_faults(bound, instance, OUTPUT_SLOT_SIZE as nat, asked);
    }
    let language = match asked {
        Ok(language) => language,
        Err(e) => {
            return Err(e);
        },
    };
    let ghost asked_once = instance;
    let greeted = instance.call_greet(who);
    proof {
        PluginInstance::lemma_call_faults(
            asked_once,
            instance,
            (OUTPUT_SLOT_SIZE + encode_utf8(who@).len()) as nat,
            greeted,
        );
    }
    match greeted {
        Ok(greeting) => {
            let answer = Greeting { language, greeting };
            proof {
                assert(call_result(
                    bound,
                    asked_once,
                    OUTPUT_SLOT_SIZE as nat,
                    Ok::<String, HostError>(answer.language),
                ));
                assert(call_result(
                    asked_once,
                    instance,
                    (OUTPUT_SLOT_SIZE + encode_utf8(who@).len()) as nat,
                    Ok::<String, HostError>(answer.greeting),
                ));
            }
            Ok(answer)
        },
        Err(e) => Err(e),
    }
}

impl Greeting {
    /// The lines printed for a plugin: its language, then its greeting.
    pub open spec fn lines(self) -> Seq<Seq<char>> {
        seq!["Language: "@ + self.language@, "Greeting: "@ + self.greeting@]
    }

    /// Words the two lines to print.
    pub fn report(&self) -> (lines: Vec<String>)
        ensures
            lines@.len() == 2,
            lines@[0]@ == self.lines()[0],
            lines@[1]@ == self.lines()[1],
    {
        let mut first: String = String::from_str("Language: ");
        first.append(self.language.as_str());
        let mut second: String = String::from_str("Greeting: ");
        second.append(self.greeting.as_str());
        let mut lines: Vec<String> = Vec::new();
        lines.push(first);
        lines.push(second);
        lines
    }
}

} // verus!
