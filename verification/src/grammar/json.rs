//! JSON, as `serde_json` reads and writes it.

use vstd::prelude::*;

verus! {

#[verifier::external_type_specification]
#[verifier::external_body]
pub struct ExJsonValue(::serde_json::Value);

#[verifier::external_type_specification]
#[verifier::external_body]
pub struct ExJsonError(::serde_json::Error);

/// What `serde_json::from_str` returns for a text, read as a
/// `serde_json::Value`.
pub uninterp spec fn json_parsed(text: Seq<char>) -> Result<::serde_json::Value, ::serde_json::Error>;

/// What `serde_json::to_string_pretty` returns for a document.
pub uninterp spec fn json_printed(doc: ::serde_json::Value) -> Result<Seq<char>, ::serde_json::Error>;

/// What a `serde_json::Error` shows when it is displayed.
pub uninterp spec fn json_error_text(error: ::serde_json::Error) -> Seq<char>;

/// Calls `serde_json::from_str` for a `serde_json::Value`. The parser reads
/// the whole text and nothing else, so the contract only gives its answer the
/// name `json_parsed`.
#[verifier::external_body]
pub(crate) fn parse(text: &str) -> (r: Result<::serde_json::Value, ::serde_json::Error>)
    ensures
        r == json_parsed(text@),
{
    ::serde_json::from_str::<::serde_json::Value>(text)
}

/// Calls `serde_json::to_string_pretty`. The printer reads the document and
/// nothing else, so the contract only gives its answer the name
/// `json_printed`.
#[verifier::external_body]
pub(crate) fn print(doc: &::serde_json::Value) -> (r: Result<String, ::serde_json::Error>)
    ensures
        r is Ok <==> json_printed(*doc) is Ok,
        r is Ok ==> r->Ok_0@ == json_printed(*doc)->Ok_0,
        r is Err ==> r->Err_0 == json_printed(*doc)->Err_0,
{
    ::serde_json::to_string_pretty(doc)
}

/// Calls the `Display` impl of `serde_json::Error` through `to_string`. The
/// contract only gives the text the name `json_error_text`.
#[verifier::external_body]
pub(crate) fn error_text(error: &::serde_json::Error) -> (r: String)
    ensures
        r@ == json_error_text(*error),
{
    error.to_string()
}

} // verus!
