//! The resolver: from a model or scheme name to a loaded tokenization table.
//!
//! A name is first tried as it stands. Only if that fails, the fixed alias
//! table maps a scheme name to a model known to use that scheme, and the load
//! is tried once more with the mapped name. There is no further tier.

use vstd::prelude::*;
use crate::table::{bpe_from_model, matches_table, model_table, Table};
use crate::text::same_text;

verus! {

/// Why a name could not be turned into a loaded table.
#[derive(Debug)]
pub struct ResolutionFailure {
    /// The message of the last attempt that failed.
    pub message: String,
}

impl View for ResolutionFailure {
    type V = Seq<char>;

    open spec fn view(&self) -> Seq<char> {
        self.message@
    }
}

/// The alias table: the model that stands for a scheme name, if the name is
/// one of the known schemes.
pub open spec fn alias_of(name: Seq<char>) -> Option<Seq<char>> {
    if name == "cl100k_base"@ {
        Some("gpt-4"@)
    } else if name == "p50k_base"@ {
        Some("text-davinci-003"@)
    } else if name == "p50k_edit"@ {
        Some("text-davinci-edit-001"@)
    } else if name == "r50k_base"@ || name == "gpt2"@ {
        Some("text-davinci-001"@)
    } else if name == "o200k_base"@ {
        Some("gpt-4o"@)
    } else {
        None
    }
}

/// The name of the second attempt: the alias where there is one, else the
/// name itself.
pub open spec fn fallback_name(name: Seq<char>) -> Seq<char> {
    match alias_of(name) {
        Some(mapped) => mapped,
        None => name,
    }
}

/// The result of the two-tier lookup: the table of the name itself where it
/// loads, else whatever loading the fallback name gives.
pub open spec fn resolved(name: Seq<char>) -> Result<Table, Seq<char>> {
    if model_table(name) is Ok {
        model_table(name)
    } else {
        model_table(fallback_name(name))
    }
}

/// Looks a name up in the alias table.
pub fn alias_target<'a>(model: &'a str) -> (target: &'a str)
    ensures
        target@ == fallback_name(model@),
{
    if same_text(model, "cl100k_base") {
        "gpt-4"
    } else if same_text(model, "p50k_base") {
        "text-davinci-003"
    } else if same_text(model, "p50k_edit") {
        "text-davinci-edit-001"
    } else if same_text(model, "r50k_base") || same_text(model, "gpt2") {
        "text-davinci-001"
    } else if same_text(model, "o200k_base") {
        "gpt-4o"
    } else {
        model
    }
}

/// The second tier, given what the first attempt returned: a table from the
/// first attempt is kept; after a failure the fallback name is loaded, and
/// its table or its failure is the result. The first failure's message is
/// dropped.
pub fn or_fallback(first: Result<Table, String>, model: &str) -> (loaded: Result<
    Table,
    ResolutionFailure,
>)
    ensures
        match first {
            Ok(table) => loaded == Ok::<Table, ResolutionFailure>(table),
            Err(_) => matches_table(loaded, model_table(fallback_name(model@))),
        },
{
    match first {
        Ok(table) => Ok(table),
        Err(_) => match bpe_from_model(alias_target(model)) {
            Ok(table) => Ok(table),
            Err(message) => Err(ResolutionFailure { message }),
        },
    }
}

/// Loads the table for a name: the name itself first, its alias second.
///
/// Succeeds exactly where one of the two attempts does, with the table of
/// the first that does; where both fail, the failure carries the message of
/// the second.
pub fn load_tokenizer(model: &str) -> (loaded: Result<Table, ResolutionFailure>)
    ensures
        matches_table(loaded, resolved(model@)),
{
    or_fallback(bpe_from_model(model), model)
}

} // verus!
