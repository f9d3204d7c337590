//! The tag that says which grammar governs a text.

use crate::text::equal;
use vstd::prelude::*;

verus! {

/// One of the three grammars.
#[derive(Clone, Copy, Debug, PartialEq, Eq, Structural)]
pub enum Format {
    Json,
    Toml,
    Yaml,
}

impl Format {
    /// The tag of the grammar: the extension that a file of it carries.
    pub open spec fn spec_tag(self) -> Seq<char> {
        match self {
            Format::Json => "json"@,
            Format::Toml => "toml"@,
            Format::Yaml => "yaml"@,
        }
    }

    /// The name of the grammar as messages spell it.
    pub open spec fn spec_name(self) -> Seq<char> {
        match self {
            Format::Json => "JSON"@,
            Format::Toml => "TOML"@,
            Format::Yaml => "YAML"@,
        }
    }

    /// The grammar that a tag names. The match is exact: case counts, and
    /// nothing but the three tags names a grammar.
    pub open spec fn spec_from_tag(tag: Seq<char>) -> Option<Format> {
        if tag == "json"@ {
            Some(Format::Json)
        } else if tag == "toml"@ {
            Some(Format::Toml)
        } else if tag == "yaml"@ {
            Some(Format::Yaml)
        } else {
            None
        }
    }

    /// The place of the grammar in the order in which inline text is tried
    /// against them: JSON first, then TOML, then YAML.
    pub open spec fn rank(self) -> nat {
        match self {
            Format::Json => 0,
            Format::Toml => 1,
            Format::Yaml => 2,
        }
    }

    /// The tag of the grammar.
    pub fn tag(self) -> (r: &'static str)
        ensures
            r@ == self.spec_tag(),
    {
        match self {
            Format::Json => "json",
            Format::Toml => "toml",
            Format::Yaml => "yaml",
        }
    }

    /// The name of the grammar as messages spell it.
    pub fn name(self) -> (r: &'static str)
        ensures
            r@ == self.spec_name(),
    {
        match self {
            Format::Json => "JSON",
            Format::Toml => "TOML",
            Format::Yaml => "YAML",
        }
    }

    /// The grammar that `tag` names, if it names one.
    pub fn from_tag(tag: &str) -> (r: Option<Format>)
        ensures
            r == Format::spec_from_tag(tag@),
    {
        if equal(tag, "json") {
            Some(Format::Json)
        } else if equal(tag, "toml") {
            Some(Format::Toml)
        } else if equal(tag, "yaml") {
            Some(Format::Yaml)
        } else {
            None
        }
    }
}

/// Each grammar is the one that its own tag names: the three tags differ.
pub proof fn lemma_tag_names_its_format(format: Format)
    ensures
        Format::spec_from_tag(format.spec_tag()) == Some(format),
{
    reveal_strlit("json");
    reveal_strlit("toml");
    reveal_strlit("yaml");
    assert("json"@[0] != "toml"@[0]);
    assert("json"@[0] != "yaml"@[0]);
    assert("toml"@[0] != "yaml"@[0]);
}

} // verus!
