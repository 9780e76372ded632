//! Which exports a plugin must offer under each calling convention, and what
//! binding fails with when one of them is not there.

use crate::abi::PAGE_SIZE;
use crate::error::{Fault, HostError};
use vstd::prelude::*;

verus! {

/// How strings cross the boundary. It is chosen once, when an instance is
/// bound, and never again per call.
#[derive(Clone, Copy, Debug, PartialEq, Eq, Structural)]
pub enum Convention {
    /// The host allocates in the plugin's memory and passes offsets and
    /// lengths; results come back as bounds records.
    RawPointer,
    /// Typed functions whose strings the engine lowers and lifts itself.
    GeneratedBinding,
}

/// The convention that the first eight bytes of a binary call for: a core
/// module is driven by raw pointers, a component through its typed
/// functions. Anything else is no plugin.
pub open spec fn convention_of(bytes: Seq<u8>) -> Option<Convention> {
    if bytes.len() < 8 || bytes.subrange(0, 4) != seq![0u8, 0x61u8, 0x73u8, 0x6du8] {
        None
    } else if bytes.subrange(4, 8) == seq![1u8, 0u8, 0u8, 0u8] {
        Some(Convention::RawPointer)
    } else if bytes.subrange(4, 8) == seq![0x0du8, 0u8, 1u8, 0u8] {
        Some(Convention::GeneratedBinding)
    } else {
        None
    }
}

impl Convention {
    /// Reads the convention off the preamble of a plugin's binary.
    pub fn of_binary(bytes: &[u8]) -> (convention: Option<Convention>)
        ensures
            convention == convention_of(bytes@),
    {
        if bytes.len() < 8 {
            return None;
        }
        assert(bytes@.subrange(0, 4) =~= seq![bytes@[0], bytes@[1], bytes@[2], bytes@[3]]);
        assert(bytes@.subrange(4, 8) =~= seq![bytes@[4], bytes@[5], bytes@[6], bytes@[7]]);
        if bytes[0] != 0 || bytes[1] != 0x61 || bytes[2] != 0x73 || bytes[3] != 0x6d {
            assert(bytes@.subrange(0, 4) != seq![0u8, 0x61u8, 0x73u8, 0x6du8]) by {
                let magic = seq![0u8, 0x61u8, 0x73u8, 0x6du8];
                assert(magic[0] == 0 && magic[1] == 0x61 && magic[2] == 0x73 && magic[3] == 0x6d);
            }
            return None;
        }
        if bytes[4] == 1 && bytes[5] == 0 && bytes[6] == 0 && bytes[7] == 0 {
            Some(Convention::RawPointer)
        } else if bytes[4] == 0x0d && bytes[5] == 0 && bytes[6] == 1 && bytes[7] == 0 {
            assert(bytes@.subrange(4, 8) != seq![1u8, 0u8, 0u8, 0u8]) by {
                let core = seq![1u8, 0u8, 0u8, 0u8];
                assert(core[0] == 1);
            }
            Some(Convention::GeneratedBinding)
        } else {
            assert(bytes@.subrange(4, 8) != seq![1u8, 0u8, 0u8, 0u8]) by {
                let core = seq![1u8, 0u8, 0u8, 0u8];
                assert(core[0] == 1 && core[1] == 0 && core[2] == 0 && core[3] == 0);
            }
            assert(bytes@.subrange(4, 8) != seq![0x0du8, 0u8, 1u8, 0u8]) by {
                let layered = seq![0x0du8, 0u8, 1u8, 0u8];
                assert(layered[0] == 0x0d && layered[1] == 0 && layered[2] == 1 && layered[3]
                    == 0);
            }
            None
        }
    }
}

/// What the lookups of a binding found: whether `language` and `greet` are
/// exported with the expected type, and the page size of the exported
/// `memory`, if there is one.
#[derive(Clone, Copy, Debug, PartialEq, Eq, Structural)]
pub struct ExportsFound {
    pub language: bool,
    pub greet: bool,
    pub memory_page_size: Option<u64>,
}

/// The fault that binding ends in for what was found: the first of a
/// missing or mistyped `language`, a missing or mistyped `greet`, and, under
/// the raw-pointer convention alone, a missing `memory` or one that does not
/// grow in pages of the expected size.
pub open spec fn binding_fault(convention: Convention, found: ExportsFound) -> Option<Fault> {
    if !found.language {
        Some(Fault::Binding { export: "language"@ })
    } else if !found.greet {
        Some(Fault::Binding { export: "greet"@ })
    } else if convention == Convention::GeneratedBinding {
        None
    } else {
        match found.memory_page_size {
            None => Some(Fault::MemoryExportMissing),
            Some(size) => if size == PAGE_SIZE {
                None
            } else {
                Some(Fault::Binding { export: "memory"@ })
            },
        }
    }
}

/// Decides whether what was found is a complete binding for `convention`.
pub fn check_exports(convention: Convention, found: ExportsFound) -> (checked: Result<
    (),
    HostError,
>)
    ensures
        match checked {
            Ok(_) => binding_fault(convention, found).is_none(),
            Err(e) => binding_fault(convention, found) == Some(e@),
        },
{
    if !found.language {
        return Err(HostError::Binding { export: "language".to_owned() });
    }
    if !found.greet {
        return Err(HostError::Binding { export: "greet".to_owned() });
    }
    match convention {
        Convention::GeneratedBinding => Ok(()),
        Convention::RawPointer => match found.memory_page_size {
            None => Err(HostError::MemoryExportMissing),
            Some(size) => if size == PAGE_SIZE as u64 {
                Ok(())
            } else {
                Err(HostError::Binding { export: "memory".to_owned() })
            },
        },
    }
}

} // verus!
