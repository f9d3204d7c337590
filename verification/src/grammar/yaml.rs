//! YAML, as `serde_yaml` reads and writes it.

use vstd::prelude::*;

verus! {

#[verifier::external_type_specification]
#[verifier::external_body]
pub struct ExYamlValue(::serde_yaml::Value);

#[verifier::external_type_specification]
#[verifier::external_body]
pub struct ExYamlError(::serde_yaml::Error);

/// What `serde_yaml::from_str` returns for a text, read as a
/// `serde_yaml::Value`.
pub uninterp spec fn yaml_parsed(text: Seq<char>) -> Result<::serde_yaml::Value, ::serde_yaml::Error>;

/// What `serde_yaml::to_string` returns for a document.
pub uninterp spec fn yaml_printed(doc: ::serde_yaml::Value) -> Result<Seq<char>, ::serde_yaml::Error>;

/// What a `serde_yaml::Error` shows when it is displayed.
pub uninterp spec fn yaml_error_text(error: ::serde_yaml::Error) -> Seq<char>;

/// Calls `serde_yaml::from_str` for a `serde_yaml::Value`. The parser reads
/// the whole text and nothing else, so the contract only gives its answer the
/// name `yaml_parsed`.
#[verifier::external_body]
pub(crate) fn parse(text: &str) -> (r: Result<::serde_yaml::Value, ::serde_yaml::Error>)
    ensures
        r == yaml_parsed(text@),
{
    ::serde_yaml::from_str::<::serde_yaml::Value>(text)
}

/// Calls `serde_yaml::to_string`, which writes the block form. The printer
/// reads the document and nothing else, so the contract only gives its answer
/// the name `yaml_printed`.
#[verifier::external_body]
pub(crate) fn print(doc: &::serde_yaml::Value) -> (r: Result<String, ::serde_yaml::Error>)
    ensures
        r is Ok <==> yaml_printed(*doc) is Ok,
        r is Ok ==> r->Ok_0@ == yaml_printed(*doc)->Ok_0,
        r is Err ==> r->Err_0 == yaml_printed(*doc)->Err_0,
{
    ::serde_yaml::to_string(doc)
}

/// Calls the `Display` impl of `serde_yaml::Error` through `to_string`. The
/// contract only gives the text the name `yaml_error_text`.
#[verifier::external_body]
pub(crate) fn error_text(error: &::serde_yaml::Error) -> (r: String)
    ensures
        r@ == yaml_error_text(*error),
{
    error.to_string()
}

} // verus!
