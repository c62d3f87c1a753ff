//! The script that an archive may carry, to be run when it is installed.

use vstd::prelude::*;
use vstd::utf8::{encode_utf8, valid_utf8};

verus! {

/// `String::from_utf8` of std, with its error dropped: the bytes become a
/// string exactly when they are UTF-8, and the string then has those bytes.
#[verifier::external_body]
fn text_from_utf8(bytes: Vec<u8>) -> (text: Option<String>)
    ensures
        text is Some <==> valid_utf8(bytes@),
        text is Some ==> encode_utf8(text->Some_0@) == bytes@,
{
    match String::from_utf8(bytes) {
        Ok(text) => Some(text),
        Err(_) => None,
    }
}

/// A script loaded from an archive, ready to be run.
#[derive(Clone, Debug, PartialEq, Eq)]
pub struct InstructionsExecutor {
    script: String,
}

impl View for InstructionsExecutor {
    type V = Seq<char>;

    closed spec fn view(&self) -> Seq<char> {
        self.script@
    }
}

impl InstructionsExecutor {
    /// Loads a script from the bytes of an archive's member. The bytes must
    /// be UTF-8 text; the executor then holds exactly them.
    pub fn from_script(bytes: Vec<u8>) -> (loaded: Option<InstructionsExecutor>)
        ensures
            loaded is Some <==> valid_utf8(bytes@),
            loaded is Some ==> encode_utf8(loaded->Some_0@) == bytes@,
    {
        match text_from_utf8(bytes) {
            Some(script) => Some(InstructionsExecutor { script }),
            None => None,
        }
    }

    /// A copy of this executor.
    pub fn duplicate(&self) -> (copy: Self)
        ensures
            copy@ == self@,
    {
        InstructionsExecutor { script: self.script.clone() }
    }

    /// The text of the script.
    pub fn script(&self) -> (text: &String)
        ensures
            text@ == self@,
    {
        &self.script
    }
}

} // verus!
