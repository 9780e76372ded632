//! The English greeter: what a plugin of that language answers.

use vstd::prelude::*;
use vstd::string::StringExecFns;

verus! {

/// The greeter for English.
pub struct Greeter;

impl Greeter {
    /// The words that open a greeting at `hour`: morning before 12,
    /// afternoon from 12 and before 18, evening from 18 on.
    pub open spec fn salutation(hour: u32) -> Seq<char> {
        if hour < 12 {
            "Good morning, "@
        } else if hour < 18 {
            "Good afternoon, "@
        } else {
            "Good evening, "@
        }
    }

    /// The greeting for `name` at `hour`.
    pub open spec fn greeting(name: Seq<char>, hour: u32) -> Seq<char> {
        Greeter::salutation(hour) + name + "!"@
    }

    /// The language we greet in.
    pub fn language() -> (language: String)
        ensures
            language@ == "English"@,
    {
        String::from_str("English")
    }

    /// Greets `name` as befits `hour`, the hour of day that the host
    /// reported.
    pub fn greet(name: &str, hour: u32) -> (greeting: String)
        ensures
            greeting@ == Greeter::greeting(name@, hour),
    {
        let opening: &str = if hour < 12 {
            "Good morning, "
        } else if hour < 18 {
            "Good afternoon, "
        } else {
            "Good evening, "
        };
        let mut greeting: String = String::from_str(opening);
        greeting.append(name);
        greeting.append("!");
        greeting
    }
}

} // verus!
