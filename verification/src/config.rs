//! The search configuration: root paths, compiled name patterns and
//! requested entry types, built once from the parsed command-line values.

use vstd::prelude::*;
use vstd::string::StringExecFns;
use vstd::string::StrSliceExecFns;
use crate::pattern::NamePattern;
use crate::pattern::regex_compiles;

verus! {

/// The kind of filesystem entry a `-t` filter can ask for.
#[derive(Debug, Clone, Copy, PartialEq, Eq, Structural)]
pub enum EntryType {
    Dir,
    File,
    Link,
}

/// The entry type a single-character command-line token stands for:
/// `d` for directories, `f` for plain files, `l` for symbolic links.
/// Every other token stands for no entry type.
pub open spec fn spec_token_entry_type(tok: Seq<char>) -> Option<EntryType> {
    if tok.len() == 1 {
        if tok[0] == 'd' {
            Some(EntryType::Dir)
        } else if tok[0] == 'f' {
            Some(EntryType::File)
        } else if tok[0] == 'l' {
            Some(EntryType::Link)
        } else {
            None
        }
    } else {
        None
    }
}

/// Maps a `-t` token to its entry type; `None` for an unknown token.
pub fn entry_type_of_token(tok: &str) -> (r: Option<EntryType>)
    ensures
        r == spec_token_entry_type(tok@),
{
    let n = tok.unicode_len();
    if n != 1 {
        return None;
    }
    let c = tok.get_char(0);
    if c == 'd' {
        Some(EntryType::Dir)
    } else if c == 'f' {
        Some(EntryType::File)
    } else if c == 'l' {
        Some(EntryType::Link)
    } else {
        None
    }
}

/// A fatal configuration error: the offending command-line value.
#[derive(Debug)]
pub enum ConfigError {
    /// A `-n` value that is not a valid regular expression.
    InvalidName(String),
    /// A `-t` token outside `d`, `f`, `l`. The argument parser is expected
    /// to reject these upstream; this variant keeps the mapping total.
    InvalidEntryType(String),
}

impl ConfigError {
    /// The diagnostic text for this error.
    pub open spec fn spec_message(&self) -> Seq<char> {
        match self {
            ConfigError::InvalidName(p) => "Invalid --name \""@ + p@ + "\""@,
            ConfigError::InvalidEntryType(t) => "Invalid --type \""@ + t@ + "\""@,
        }
    }

    /// Renders the diagnostic text, naming the offending value.
    pub fn message(&self) -> (r: String)
        ensures
            r@ == self.spec_message(),
    {
        match self {
            ConfigError::InvalidName(p) => {
                let mut s = "Invalid --name \"".to_owned();
                s.append(p.as_str());
                s.append("\"");
                s
            },
            ConfigError::InvalidEntryType(t) => {
                let mut s = "Invalid --type \"".to_owned();
                s.append(t.as_str());
                s.append("\"");
                s
            },
        }
    }
}

/// An immutable search configuration.
///
/// `paths` is never empty (it defaults to `.`); an empty `names` means "no
/// name restriction" and an empty `entry_types` means "no type restriction".
pub struct Config {
    /// Root filesystem locations to scan, in the order given.
    pub paths: Vec<String>,
    /// Compiled name-matching patterns; `OR` semantics across the list.
    pub names: Vec<NamePattern>,
    /// Requested entry types; `OR` semantics across the list.
    pub entry_types: Vec<EntryType>,
}

/// Every `-t` token names an entry type.
pub open spec fn all_tokens_valid(toks: Seq<String>) -> bool {
    forall|i: int| 0 <= i < toks.len() ==> spec_token_entry_type(toks[i]@) is Some
}

/// Every `-n` value compiles as a regular expression.
pub open spec fn all_patterns_compile(pats: Seq<String>) -> bool {
    forall|i: int| 0 <= i < pats.len() ==> regex_compiles(pats[i]@)
}

/// `j` is the first position whose token names no entry type.
pub open spec fn first_invalid_token(toks: Seq<String>, j: int) -> bool {
    &&& 0 <= j < toks.len()
    &&& spec_token_entry_type(toks[j]@) is None
    &&& forall|k: int| 0 <= k < j ==> spec_token_entry_type(toks[k]@) is Some
}

/// `j` is the first position whose value fails to compile.
pub open spec fn first_invalid_pattern(pats: Seq<String>, j: int) -> bool {
    &&& 0 <= j < pats.len()
    &&& !regex_compiles(pats[j]@)
    &&& forall|k: int| 0 <= k < j ==> regex_compiles(pats[k]@)
}

/// Maps each `-t` token to its entry type, in order, stopping at the first
/// unknown token.
pub fn map_entry_types(toks: &Vec<String>) -> (r: Result<Vec<EntryType>, ConfigError>)
    ensures
        r is Ok <==> all_tokens_valid(toks@),
        r is Ok ==> r->Ok_0@.len() == toks@.len(),
        r is Ok ==> forall|i: int|
            0 <= i < toks@.len() ==> Some(r->Ok_0@[i]) == spec_token_entry_type(toks@[i]@),
        r is Err ==> exists|j: int|
            first_invalid_token(toks@, j) && (r->Err_0 matches ConfigError::InvalidEntryType(t)
                && t@ == toks@[j]@),
{
    let mut out: Vec<EntryType> = Vec::new();
    let mut i: usize = 0;
    while i < toks.len()
        invariant
            i <= toks@.len(),
            out@.len() == i,
            forall|k: int| 0 <= k < i ==> spec_token_entry_type(toks@[k]@) is Some,
            forall|k: int| 0 <= k < i ==> Some(out@[k]) == spec_token_entry_type(toks@[k]@),
        decreases toks@.len() - i,
    {
        match entry_type_of_token(toks[i].as_str()) {
            Some(t) => {
                out.push(t);
            },
            None => {
                assert(first_invalid_token(toks@, i as int));
                return Err(ConfigError::InvalidEntryType(toks[i].clone()));
            },
        }
        i += 1;
    }
    Ok(out)
}

/// Compiles each `-n` value, in order, stopping at the first invalid one.
pub fn compile_patterns(pats: &Vec<String>) -> (r: Result<Vec<NamePattern>, ConfigError>)
    ensures
        r is Ok <==> all_patterns_compile(pats@),
        r is Ok ==> r->Ok_0@.len() == pats@.len(),
        r is Ok ==> forall|i: int| 0 <= i < pats@.len() ==> r->Ok_0@[i].source() == pats@[i]@,
        r is Err ==> exists|j: int|
            first_invalid_pattern(pats@, j) && (r->Err_0 matches ConfigError::InvalidName(p)
                && p@ == pats@[j]@),
{
    let mut out: Vec<NamePattern> = Vec::new();
    let mut i: usize = 0;
    while i < pats.len()
        invariant
            i <= pats@.len(),
            out@.len() == i,
            forall|k: int| 0 <= k < i ==> regex_compiles(pats@[k]@),
            forall|k: int| 0 <= k < i ==> out@[k].source() == pats@[k]@,
        decreases pats@.len() - i,
    {
        match NamePattern::compile(pats[i].as_str()) {
            Some(p) => {
                out.push(p);
            },
            None => {
                assert(first_invalid_pattern(pats@, i as int));
                return Err(ConfigError::InvalidName(pats[i].clone()));
            },
        }
        i += 1;
    }
    Ok(out)
}

/// Builds the search configuration from the parsed command-line values:
/// positional paths (defaulting to `.`), `-n` pattern texts and `-t` tokens.
/// Fails on the first unknown token, then on the first invalid pattern; no
/// later value is examined.
pub fn build_configuration(paths: Vec<String>, names: Vec<String>, types: Vec<String>) -> (r:
    Result<Config, ConfigError>)
    ensures
        r is Ok <==> all_tokens_valid(types@) && all_patterns_compile(names@),
        r is Ok ==> ({
            let c = r->Ok_0;
            &&& c.paths@.len() >= 1
            &&& paths@.len() == 0 ==> c.paths@.len() == 1 && c.paths@[0]@ == "."@
            &&& paths@.len() > 0 ==> c.paths@ == paths@
            &&& c.entry_types@.len() == types@.len()
            &&& forall|i: int|
                0 <= i < types@.len() ==> Some(c.entry_types@[i]) == spec_token_entry_type(
                    types@[i]@,
                )
            &&& c.names@.len() == names@.len()
            &&& forall|i: int| 0 <= i < names@.len() ==> c.names@[i].source() == names@[i]@
        }),
        r is Err && !all_tokens_valid(types@) ==> exists|j: int|
            first_invalid_token(types@, j) && (r->Err_0 matches ConfigError::InvalidEntryType(t)
                && t@ == types@[j]@),
        r is Err && all_tokens_valid(types@) ==> exists|j: int|
            first_invalid_pattern(names@, j) && (r->Err_0 matches ConfigError::InvalidName(p)
                && p@ == names@[j]@),
{
    let entry_types = match map_entry_types(&types) {
        Ok(v) => v,
        Err(e) => {
            return Err(e);
        },
    };
    let compiled = match compile_patterns(&names) {
        Ok(v) => v,
        Err(e) => {
            return Err(e);
        },
    };
    let mut roots = paths;
    if roots.len() == 0 {
        roots.push(".".to_owned());
    }
    Ok(Config { paths: roots, names: compiled, entry_types })
}

} // verus!
