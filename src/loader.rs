//! Choosing the description file and its serialization format.
use vstd::prelude::*;
use vstd::string::StringExecFns;

verus! {

/// The serialization formats a description may be written in.
#[derive(Clone, Copy, Debug, PartialEq, Eq, Structural)]
pub enum DescriptionFormat {
    Yaml,
    Json,
    Toml,
    Xml,
}

/// Why no description file could be chosen.
#[derive(Clone, Copy, Debug, PartialEq, Eq, Structural)]
pub enum LoadError {
    /// No description file, or one whose extension names no known format.
    NotFound,
    /// More than one description file in the directory.
    Ambiguous,
}

/// The format that a file extension names.
pub open spec fn format_spec(ext: Seq<char>) -> Option<DescriptionFormat> {
    if ext == "yaml"@ || ext == "yml"@ {
        Some(DescriptionFormat::Yaml)
    } else if ext == "json"@ {
        Some(DescriptionFormat::Json)
    } else if ext == "toml"@ {
        Some(DescriptionFormat::Toml)
    } else if ext == "xml"@ {
        Some(DescriptionFormat::Xml)
    } else {
        None
    }
}

/// The format of a description file with extension `ext`.
pub fn format_of_extension(ext: &str) -> (r: Result<DescriptionFormat, LoadError>)
    ensures
        r == match format_spec(ext@) {
            Some(f) => Ok(f),
            None => Err::<DescriptionFormat, LoadError>(LoadError::NotFound),
        },
{
    let e = String::from_str(ext);
    if e == String::from_str("yaml") || e == String::from_str("yml") {
        Ok(DescriptionFormat::Yaml)
    } else if e == String::from_str("json") {
        Ok(DescriptionFormat::Json)
    } else if e == String::from_str("toml") {
        Ok(DescriptionFormat::Toml)
    } else if e == String::from_str("xml") {
        Ok(DescriptionFormat::Xml)
    } else {
        Err(LoadError::NotFound)
    }
}

/// The one description file among the candidates of a directory.
pub fn single_description<T>(candidates: Vec<T>) -> (r: Result<T, LoadError>)
    ensures
        candidates@.len() == 0 ==> r == Err::<T, LoadError>(LoadError::NotFound),
        candidates@.len() == 1 ==> r == Ok::<T, LoadError>(candidates@[0]),
        candidates@.len() > 1 ==> r == Err::<T, LoadError>(LoadError::Ambiguous),
{
    let mut candidates = candidates;
    if candidates.len() == 0 {
        Err(LoadError::NotFound)
    } else if candidates.len() == 1 {
        Ok(candidates.remove(0))
    } else {
        Err(LoadError::Ambiguous)
    }
}

} // verus!
