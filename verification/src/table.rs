//! The tokenization table, and the three calls into `tiktoken_rs` that make,
//! copy and use one.
//!
//! A `Table` can only be made by loading a model by name or by copying a
//! table that was loaded, so every table is one of those that `tiktoken_rs`
//! ships: built from a vocabulary that holds every single byte, with the
//! splitting pattern that belongs to it.

use vstd::prelude::*;

verus! {

/// The table type of `tiktoken_rs`. Its contents are hidden from the
/// verifier.
#[verifier::external_type_specification]
#[verifier::external_body]
pub struct ExCoreBPE(tiktoken_rs::CoreBPE);

/// A loaded tokenization table. The field is private and no function takes a
/// table from outside, so a caller gets one only from the loader.
#[derive(Debug)]
pub struct Table {
    inner: tiktoken_rs::CoreBPE,
}

/// The longest input, in bytes of UTF-8, that is handed to a table.
///
/// A table splits its input with a backtracking pattern engine, which gives
/// up when one search holds 1,000,000 pending branches or has undone
/// 1,000,000. A repetition of a pattern leaves one branch for each character
/// it takes, and a character is at least one byte; the search for the start,
/// the choice between the alternatives and the look-ahead add a handful
/// more. An input of this length leaves a thousand branches for those.
pub const MAX_INPUT_BYTES: usize = 999000;

/// Whether a text is short enough to be handed to a table.
pub open spec fn encodable(text: Seq<char>) -> bool {
    vstd::utf8::encode_utf8(text).len() <= MAX_INPUT_BYTES
}

/// What `tiktoken_rs::get_bpe_from_model` returns for a name: the table, or
/// the text of its error. The tables and the list of known models are
/// compiled into the crate, so the result depends on the name alone.
pub uninterp spec fn model_table(name: Seq<char>) -> Result<Table, Seq<char>>;

/// The ids that `tiktoken_rs::CoreBPE::encode_with_special_tokens` returns
/// for a text on a given table. A table is never changed once built, so the
/// ids depend on the table and the text alone.
pub uninterp spec fn encoding_of(table: Table, text: Seq<char>) -> Seq<usize>;

/// How the result of a load stands to what a name gives: the same table, or
/// a failure with the same text.
pub open spec fn matches_table<E: View<V = Seq<char>>>(
    got: Result<Table, E>,
    named: Result<Table, Seq<char>>,
) -> bool {
    match got {
        Ok(table) => named == Ok::<Table, Seq<char>>(table),
        Err(failure) => named == Err::<Table, Seq<char>>(failure@),
    }
}

/// Calls `tiktoken_rs::get_bpe_from_model`. Trusted: what comes back is what
/// `model_table` names for this name, the table or the error's text.
#[verifier::external_body]
pub(crate) fn bpe_from_model(name: &str) -> (loaded: Result<Table, String>)
    ensures
        matches_table(loaded, model_table(name@)),
{
    match tiktoken_rs::get_bpe_from_model(name) {
        Ok(inner) => Ok(Table { inner }),
        Err(error) => Err(error.to_string()),
    }
}

/// Calls `tiktoken_rs::CoreBPE::encode_with_special_tokens`. Trusted: the
/// ids that come back are those that `encoding_of` names for this table and
/// text.
///
/// The call unwraps what the pattern engine returns and looks every byte up
/// in the table's vocabulary, so it panics where the engine gives up or a
/// byte is missing. The bound on the text keeps the engine within its
/// limits, and each table that can be loaded holds all 256 bytes.
#[verifier::external_body]
pub(crate) fn encode_text(table: &Table, text: &str) -> (ids: Vec<usize>)
    requires
        encodable(text@),
    ensures
        ids@ == encoding_of(*table, text@),
{
    table.inner.encode_with_special_tokens(text)
}

/// Calls `Clone::clone` of `tiktoken_rs::CoreBPE`, which the crate derives.
/// Trusted: the copy equals the table it was made from.
#[verifier::external_body]
pub(crate) fn copy_table(table: &Table) -> (copy: Table)
    ensures
        copy == *table,
{
    Table { inner: table.inner.clone() }
}

} // verus!
