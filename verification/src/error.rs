//! What goes wrong when a script is loaded or run.
use vstd::prelude::*;

use crate::text::{digits_of, natural_text};

verus! {

#[verifier::external_type_specification]
#[verifier::external_body]
pub struct ExIoError(std::io::Error);

/// A failure of the script host.
#[derive(Debug)]
pub enum ScriptError {
    /// The script did not compile or its top level threw; `report` says where.
    Compile { name: String, report: String },
    /// A hook threw, or its promise was rejected.
    Vm(String),
    /// The embedded engine itself failed.
    Rune(String),
    /// An evaluation asked for another evaluation inside itself.
    Nested,
    /// Too many background scripts are already running.
    Crowded { limit: usize },
    /// A script file could not be read.
    Unreadable { path: String, source: std::io::Error },
}

/// How a script that did not compile is shown: its name, then the report on the next
/// line.
pub open spec fn compile_message(name: Seq<char>, report: Seq<char>) -> Seq<char> {
    name + "\n"@ + report
}

/// The complaint about a script that did not compile starts with the script's name.
pub proof fn lemma_compile_message_names_the_script(name: Seq<char>, report: Seq<char>)
    ensures
        compile_message(name, report).take(name.len() as int) == name,
{
    assert(compile_message(name, report).take(name.len() as int) =~= name);
}

impl ScriptError {
    /// Whether the failure is a script that would not compile.
    pub fn is_compile(&self) -> (b: bool)
        ensures
            b == (self is Compile),
    {
        match self {
            ScriptError::Compile { .. } => true,
            _ => false,
        }
    }

    /// The text the failure is shown with.
    pub fn message(&self) -> (m: String)
        ensures
            match self {
                ScriptError::Compile { name, report } => m@ == compile_message(name@, report@),
                ScriptError::Vm(text) => m@ == text@,
                ScriptError::Rune(text) => m@ == text@,
                ScriptError::Nested => m@ == "eval 안에서 다시 eval 할 수 없다"@,
                ScriptError::Crowded { limit } => m@ == "배경 스크립트가 이미 "@ + digits_of(
                    *limit as nat,
                ) + "개다"@,
                ScriptError::Unreadable { path, source } => exists|shown: String|
                    vstd::string::to_string_from_display_ensures::<std::io::Error>(source, shown)
                        && m@ == path@ + ": "@ + shown@,
            },
    {
        match self {
            ScriptError::Compile { name, report } => {
                let mut m = name.clone();
                m.append("\n");
                m.append(report.as_str());
                m
            },
            ScriptError::Vm(text) => text.clone(),
            ScriptError::Rune(text) => text.clone(),
            ScriptError::Nested => String::from_str("eval 안에서 다시 eval 할 수 없다"),
            ScriptError::Crowded { limit } => {
                let mut m = String::from_str("배경 스크립트가 이미 ");
                let count = natural_text(*limit as u64);
                m.append(count.as_str());
                m.append("개다");
                m
            },
            ScriptError::Unreadable { path, source } => {
                let shown = source.to_string();
                let mut m = path.clone();
                m.append(": ");
                m.append(shown.as_str());
                m
            },
        }
    }
}

} // verus!
