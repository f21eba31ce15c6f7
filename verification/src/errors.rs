//! The failures of circuit modules.

use crate::decimal::{decimal, decimal_string, lemma_decimal_reads_back};
use crate::halo2::{displays_as, framework_message, is_synthesis, synthesis_error};
use halo2_proofs::plonk::Error as PlonkError;
use vstd::prelude::*;
use vstd::std_specs::convert::FromSpec;
use vstd::string::*;

verus! {

/// What can go wrong in a circuit module during synthesis.
#[derive(Debug)]
pub enum ModuleError {
    /// The framework itself failed; its error is carried as it came.
    Halo2Error(PlonkError),
    /// An input of one kind (first) came where another kind (second) is required.
    WrongInputType(String, String),
    /// A constant was used before it was assigned.
    ConstantNotAssigned,
    /// The input has a length, given here, that the module does not take.
    InputWrongLength(usize),
}

impl ModuleError {
    /// The message of a `Halo2Error` whose framework error writes `framework_text`.
    pub open spec fn halo2_error_text(framework_text: Seq<char>) -> Seq<char> {
        "[halo2] "@ + framework_text
    }

    /// Whether `text` is the message of this error. The three variants of this
    /// crate's own have one message each, with the payload put in as it is. A
    /// `Halo2Error` has the tag `[halo2] ` before whatever the framework writes
    /// for the error inside.
    pub open spec fn renders_as(self, text: Seq<char>) -> bool {
        match self {
            ModuleError::Halo2Error(e) => {
                exists|framework_text: Seq<char>| #[trigger]
                    displays_as(e, framework_text) && text == Self::halo2_error_text(framework_text)
            },
            ModuleError::WrongInputType(actual, expected) => {
                text == "wrong input type "@ + actual@ + " must be "@ + expected@
            },
            ModuleError::ConstantNotAssigned => {
                text == "constant was not previously assigned"@
            },
            ModuleError::InputWrongLength(n) => {
                text == "input length is wrong "@ + decimal(n as nat)
            },
        }
    }

    /// Lifts a framework error into `Halo2Error`, unchanged. `From` does the
    /// same, so that `?` lifts a framework error inside module code by itself.
    pub fn lift(e: PlonkError) -> (lifted: ModuleError)
        ensures
            lifted == ModuleError::Halo2Error(e),
    {
        ModuleError::Halo2Error(e)
    }

    /// Degrades this error to the framework's generic synthesis failure, for
    /// the places where the framework takes its own error type only. Whatever
    /// the error was, variant, payload and message are dropped: a caller who
    /// wants them reads them first.
    pub fn degrade(self) -> (degraded: PlonkError)
        ensures
            is_synthesis(degraded),
    {
        synthesis_error()
    }

    /// Writes the message of a `Halo2Error` around the framework's own message.
    pub fn halo2_error_message(framework_text: &str) -> (text: String)
        ensures
            text@ == Self::halo2_error_text(framework_text@),
    {
        let mut text = "[halo2] ".to_owned();
        text.append(framework_text);
        text
    }

    /// Writes the message of this error.
    pub fn to_string(&self) -> (text: String)
        ensures
            self.renders_as(text@),
    {
        match self {
            ModuleError::Halo2Error(e) => {
                let framework_text = framework_message(e);
                Self::halo2_error_message(framework_text.as_str())
            },
            ModuleError::WrongInputType(actual, expected) => {
                let mut text = "wrong input type ".to_owned();
                text.append(actual.as_str());
                text.append(" must be ");
                text.append(expected.as_str());
                text
            },
            ModuleError::ConstantNotAssigned => "constant was not previously assigned".to_owned(),
            ModuleError::InputWrongLength(n) => {
                let mut text = "input length is wrong ".to_owned();
                let digits = decimal_string(*n);
                text.append(digits.as_str());
                text
            },
        }
    }
}

/// The conversion that `?` uses inside module code: it lifts.
impl From<PlonkError> for ModuleError {
    fn from(e: PlonkError) -> (lifted: ModuleError) {
        ModuleError::lift(e)
    }
}

impl vstd::std_specs::convert::FromSpecImpl<PlonkError> for ModuleError {
    open spec fn obeys_from_spec() -> bool {
        true
    }

    open spec fn from_spec(e: PlonkError) -> ModuleError {
        ModuleError::Halo2Error(e)
    }
}

/// The conversion that `?` uses where module code returns to the framework: it
/// degrades.
impl From<ModuleError> for PlonkError {
    fn from(e: ModuleError) -> (degraded: PlonkError)
        ensures
            is_synthesis(degraded),
    {
        e.degrade()
    }
}

/// The framework's type is opaque, so no spec value stands for the result of
/// the conversion above: `from` states its own postcondition.
impl vstd::std_specs::convert::FromSpecImpl<ModuleError> for PlonkError {
    open spec fn obeys_from_spec() -> bool {
        false
    }

    open spec fn from_spec(e: ModuleError) -> PlonkError {
        arbitrary()
    }
}

/// An error is exactly one of the four variants.
pub proof fn lemma_variants_are_closed(e: ModuleError)
    ensures
        (if e is Halo2Error { 1int } else { 0 }) + (if e is WrongInputType { 1int } else { 0 })
            + (if e is ConstantNotAssigned { 1int } else { 0 })
            + (if e is InputWrongLength { 1int } else { 0 }) == 1,
{
}

/// An error of this crate's own has one message only.
pub proof fn lemma_own_message_is_unique(e: ModuleError, first: Seq<char>, second: Seq<char>)
    requires
        !(e is Halo2Error),
        e.renders_as(first),
        e.renders_as(second),
    ensures
        first == second,
{
}

/// The message of a wrong length tells the length: two lengths with the same
/// message are the same length.
pub proof fn lemma_length_is_read_from_message(first: usize, second: usize, text: Seq<char>)
    requires
        ModuleError::InputWrongLength(first).renders_as(text),
        ModuleError::InputWrongLength(second).renders_as(text),
    ensures
        first == second,
{
    let lead = "input length is wrong "@;
    assert(decimal(first as nat) =~= text.subrange(lead.len() as int, text.len() as int));
    assert(decimal(second as nat) =~= text.subrange(lead.len() as int, text.len() as int));
    lemma_decimal_reads_back(first as nat);
    lemma_decimal_reads_back(second as nat);
}

/// A framework error that was lifted has as its messages the framework's own
/// messages for it, each in full behind the tag `[halo2] `, and no others.
pub proof fn lemma_lifted_error_shows_framework_text(e: PlonkError, text: Seq<char>)
    ensures
        ModuleError::from_spec(e).renders_as(text) <==> exists|framework_text: Seq<char>|
            #[trigger] displays_as(e, framework_text) && text == "[halo2] "@ + framework_text,
{
    let lifted = ModuleError::from_spec(e);
    if lifted.renders_as(text) {
        let framework_text = choose|framework_text: Seq<char>| #[trigger]
            displays_as(e, framework_text) && text == ModuleError::halo2_error_text(
                framework_text,
            );
        assert(displays_as(e, framework_text) && text == "[halo2] "@ + framework_text);
    }
    if exists|framework_text: Seq<char>| #[trigger]
        displays_as(e, framework_text) && text == "[halo2] "@ + framework_text {
        let framework_text = choose|framework_text: Seq<char>| #[trigger]
            displays_as(e, framework_text) && text == "[halo2] "@ + framework_text;
        assert(displays_as(lifted->Halo2Error_0, framework_text));
    }
}

/// There is no way back from the framework. Where `degraded` is what the
/// framework got for `e`, lifting it gives a `Halo2Error` around a synthesis
/// failure, whatever `e` was: an error of this crate's own is never restored,
/// and a framework error only if it was a synthesis failure from the start.
pub proof fn lemma_round_trip_loses_the_error(e: ModuleError, degraded: PlonkError)
    requires
        is_synthesis(degraded),
    ensures
        ModuleError::from_spec(degraded) == ModuleError::Halo2Error(degraded),
        !(e is Halo2Error) ==> ModuleError::from_spec(degraded) != e,
        ModuleError::from_spec(degraded) == e ==> e is Halo2Error && is_synthesis(
            e->Halo2Error_0,
        ),
{
}

} // verus!
