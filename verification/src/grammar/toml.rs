//! TOML, as `toml` reads and writes it.

use vstd::prelude::*;

verus! {

#[verifier::external_type_specification]
#[verifier::external_body]
pub struct ExTomlValue(::toml::Value);

#[verifier::external_type_specification]
#[verifier::external_body]
pub struct ExTomlReadError(::toml::de::Error);

#[verifier::external_type_specification]
#[verifier::external_body]
pub struct ExTomlWriteError(::toml::ser::Error);

/// What `toml::from_str` returns for a text, read as a `toml::Value`.
pub uninterp spec fn toml_parsed(text: Seq<char>) -> Result<::toml::Value, ::toml::de::Error>;

/// What `toml::to_string_pretty` returns for a document.
pub uninterp spec fn toml_printed(doc: ::toml::Value) -> Result<Seq<char>, ::toml::ser::Error>;

/// What a `toml::de::Error` shows when it is displayed.
pub uninterp spec fn toml_read_error_text(error: ::toml::de::Error) -> Seq<char>;

/// What a `toml::ser::Error` shows when it is displayed.
pub uninterp spec fn toml_write_error_text(error: ::toml::ser::Error) -> Seq<char>;

/// Calls `toml::from_str` for a `toml::Value`. The parser reads the whole
/// text and nothing else, so the contract only gives its answer the name
/// `toml_parsed`.
#[verifier::external_body]
pub(crate) fn parse(text: &str) -> (r: Result<::toml::Value, ::toml::de::Error>)
    ensures
        r == toml_parsed(text@),
{
    ::toml::from_str::<::toml::Value>(text)
}

/// Calls `toml::to_string_pretty`. The printer reads the document and nothing
/// else, so the contract only gives its answer the name `toml_printed`.
#[verifier::external_body]
pub(crate) fn print(doc: &::toml::Value) -> (r: Result<String, ::toml::ser::Error>)
    ensures
        r is Ok <==> toml_printed(*doc) is Ok,
        r is Ok ==> r->Ok_0@ == toml_printed(*doc)->Ok_0,
        r is Err ==> r->Err_0 == toml_printed(*doc)->Err_0,
{
    ::toml::to_string_pretty(doc)
}

/// Calls the `Display` impl of `toml::de::Error` through `to_string`. The
/// contract only gives the text the name `toml_read_error_text`.
#[verifier::external_body]
pub(crate) fn read_error_text(error: &::toml::de::Error) -> (r: String)
    ensures
        r@ == toml_read_error_text(*error),
{
    error.to_string()
}

/// Calls the `Display` impl of `toml::ser::Error` through `to_string`. The
/// contract only gives the text the name `toml_write_error_text`.
#[verifier::external_body]
pub(crate) fn write_error_text(error: &::toml::ser::Error) -> (r: String)
    ensures
        r@ == toml_write_error_text(*error),
{
    error.to_string()
}

} // verus!
