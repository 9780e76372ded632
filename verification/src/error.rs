//! The failures a host run can end in.

use vstd::prelude::*;
use vstd::string::StringExecFns;

verus! {

/// Why a run stopped. Every failure is fatal for the run it occurs in.
#[derive(Debug, PartialEq, Eq)]
pub enum HostError {
    /// The command line did not hold exactly one name to greet.
    Usage,
    /// The plugin directory could not be read.
    Discovery,
    /// The bytes of a plugin are not a well-formed module.
    Load,
    /// A required function export is missing or has another type.
    Binding { export: String },
    /// The plugin exports no linear memory under the expected name.
    MemoryExportMissing,
    /// The plugin imports something that no registered capability provides.
    UnsatisfiedImport { name: String },
    /// A byte range lies outside the plugin's memory, or the engine refused
    /// to grow it.
    MemoryFault,
    /// A string handed back by the plugin is not valid UTF-8.
    Decode,
    /// The sandbox engine could not be set up, refused to instantiate a
    /// module, or stopped plugin code with a trap.
    Engine,
}

/// What a [`HostError`] says, with names as character sequences.
pub enum Fault {
    Usage,
    Discovery,
    Load,
    Binding { export: Seq<char> },
    MemoryExportMissing,
    UnsatisfiedImport { name: Seq<char> },
    MemoryFault,
    Decode,
    Engine,
}

impl Fault {
    /// The faults that instantiating and binding a plugin can end in.
    pub open spec fn of_binding(self) -> bool {
        ||| self == Fault::Engine
        ||| self == Fault::Load
        ||| self is UnsatisfiedImport
        ||| self is Binding
        ||| self == Fault::MemoryExportMissing
    }

    /// The faults that a call into a bound plugin can end in.
    pub open spec fn of_call(self) -> bool {
        ||| self == Fault::Engine
        ||| self == Fault::MemoryFault
        ||| self == Fault::Decode
    }
}

impl Fault {
    /// What the user is told.
    pub open spec fn text(self) -> Seq<char> {
        match self {
            Fault::Usage => "Usage: i18n-greeter <name>"@,
            Fault::Discovery => "cannot read the plugin directory"@,
            Fault::Load => "plugin is not a well-formed module or component"@,
            Fault::Binding { export } => "plugin export is missing or has another type: "@
                + export,
            Fault::MemoryExportMissing => "plugin exports no memory"@,
            Fault::UnsatisfiedImport { name } => "plugin imports what the host does not offer: "@
                + name,
            Fault::MemoryFault => "plugin memory is too short or could not be grown"@,
            Fault::Decode => "plugin returned a string that is not UTF-8"@,
            Fault::Engine => "the engine failed or stopped the plugin"@,
        }
    }
}

impl HostError {
    /// The message to report the failure with.
    pub fn message(&self) -> (message: String)
        ensures
            message@ == self@.text(),
    {
        match self {
            HostError::Usage => String::from_str("Usage: i18n-greeter <name>"),
            HostError::Discovery => String::from_str("cannot read the plugin directory"),
            HostError::Load => String::from_str("plugin is not a well-formed module or component"),
            HostError::Binding { export } => {
                let mut message: String = String::from_str(
                    "plugin export is missing or has another type: ",
                );
                message.append(export.as_str());
                message
            },
            HostError::MemoryExportMissing => String::from_str("plugin exports no memory"),
            HostError::UnsatisfiedImport { name } => {
                let mut message: String = String::from_str(
                    "plugin imports what the host does not offer: ",
                );
                message.append(name.as_str());
                message
            },
            HostError::MemoryFault => String::from_str(
                "plugin memory is too short or could not be grown",
            ),
            HostError::Decode => String::from_str("plugin returned a string that is not UTF-8"),
            HostError::Engine => String::from_str("the engine failed or stopped the plugin"),
        }
    }
}

impl View for HostError {
    type V = Fault;

    open spec fn view(&self) -> Fault {
        match *self {
            HostError::Usage => Fault::Usage,
            HostError::Discovery => Fault::Discovery,
            HostError::Load => Fault::Load,
            HostError::Binding { export } => Fault::Binding { export: export@ },
            HostError::MemoryExportMissing => Fault::MemoryExportMissing,
            HostError::UnsatisfiedImport { name } => Fault::UnsatisfiedImport { name: name@ },
            HostError::MemoryFault => Fault::MemoryFault,
            HostError::Decode => Fault::Decode,
            HostError::Engine => Fault::Engine,
        }
    }
}

} // verus!
