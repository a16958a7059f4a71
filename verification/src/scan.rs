//! The scan engine's verified core: which visited entries pass the type and
//! name filters, and the text block a root path's matches produce.
//!
//! The caller walks each root path depth-first and hands every successfully
//! visited entry over as an [`Entry`]; per-step traversal failures are
//! reported on the caller's error stream and never reach this module.

use vstd::prelude::*;
use vstd::string::StringExecFns;
use crate::config::Config;
use crate::config::EntryType;
use crate::pattern::regex_match;

verus! {

/// One successfully visited filesystem entry, as the walker classified it:
/// its rendered path, its bare file name, and its type classification.
#[derive(Debug, Clone)]
pub struct Entry {
    /// The entry's path as displayed text (platform-native separators).
    pub path: String,
    /// The bare file name: the final path component only.
    pub file_name: String,
    /// Whether the walker classified the entry as a directory.
    pub is_dir: bool,
    /// Whether the walker classified the entry as a plain file.
    pub is_file: bool,
    /// Whether the walker classified the entry as a symbolic link.
    pub is_symlink: bool,
}

/// Whether an entry's classification is the one a requested type asks for.
pub open spec fn entry_matches_type(e: Entry, t: EntryType) -> bool {
    match t {
        EntryType::Dir => e.is_dir,
        EntryType::File => e.is_file,
        EntryType::Link => e.is_symlink,
    }
}

/// The type filter: passes when no entry type was requested, or when the
/// entry's classification matches at least one requested type.
pub open spec fn spec_passes_type_filter(c: Config, e: Entry) -> bool {
    c.entry_types@.len() == 0 || exists|i: int|
        0 <= i < c.entry_types@.len() && entry_matches_type(e, c.entry_types@[i])
}

/// The name filter: passes when no pattern was given, or when at least one
/// pattern matches the entry's bare file name (never its full path).
pub open spec fn spec_passes_name_filter(c: Config, e: Entry) -> bool {
    c.names@.len() == 0 || exists|i: int|
        0 <= i < c.names@.len() && regex_match(c.names@[i].source(), e.file_name@)
}

/// An entry is reported exactly when it passes both filters.
pub open spec fn spec_passes_filters(c: Config, e: Entry) -> bool {
    spec_passes_type_filter(c, e) && spec_passes_name_filter(c, e)
}

/// Decides the type filter for one entry.
pub fn passes_type_filter(config: &Config, entry: &Entry) -> (r: bool)
    ensures
        r == spec_passes_type_filter(*config, *entry),
{
    if config.entry_types.len() == 0 {
        return true;
    }
    let mut i: usize = 0;
    while i < config.entry_types.len()
        invariant
            i <= config.entry_types@.len(),
            forall|k: int| 0 <= k < i ==> !entry_matches_type(*entry, config.entry_types@[k]),
        decreases config.entry_types@.len() - i,
    {
        let hit = match config.entry_types[i] {
            EntryType::Dir => entry.is_dir,
            EntryType::File => entry.is_file,
            EntryType::Link => entry.is_symlink,
        };
        if hit {
            assert(entry_matches_type(*entry, config.entry_types@[i as int]));
            return true;
        }
        i += 1;
    }
    false
}

/// Decides the name filter for one entry, matching each pattern against the
/// bare file name.
pub fn passes_name_filter(config: &Config, entry: &Entry) -> (r: bool)
    ensures
        r == spec_passes_name_filter(*config, *entry),
{
    if config.names.len() == 0 {
        return true;
    }
    let mut i: usize = 0;
    while i < config.names.len()
        invariant
            i <= config.names@.len(),
            forall|k: int|
                0 <= k < i ==> !regex_match(config.names@[k].source(), entry.file_name@),
        decreases config.names@.len() - i,
    {
        if config.names[i].is_match(entry.file_name.as_str()) {
            assert(regex_match(config.names@[i as int].source(), entry.file_name@));
            return true;
        }
        i += 1;
    }
    false
}

/// Decides whether an entry is reported: the conjunction of the type filter
/// and the name filter.
pub fn passes_filters(config: &Config, entry: &Entry) -> (r: bool)
    ensures
        r == spec_passes_filters(*config, *entry),
        r == (spec_passes_type_filter(*config, *entry) && spec_passes_name_filter(
            *config,
            *entry,
        )),
{
    passes_type_filter(config, entry) && passes_name_filter(config, entry)
}

/// The paths of the entries that pass both filters, in traversal order.
pub open spec fn spec_matching_paths(c: Config, entries: Seq<Entry>) -> Seq<String>
    decreases entries.len(),
{
    if entries.len() == 0 {
        Seq::empty()
    } else {
        let rest = spec_matching_paths(c, entries.drop_last());
        if spec_passes_filters(c, entries.last()) {
            rest.push(entries.last().path)
        } else {
            rest
        }
    }
}

/// Collects the paths of the entries of one root path that pass both
/// filters, preserving traversal order.
pub fn matching_paths(config: &Config, entries: &Vec<Entry>) -> (r: Vec<String>)
    ensures
        r@ == spec_matching_paths(*config, entries@),
{
    let mut out: Vec<String> = Vec::new();
    let mut i: usize = 0;
    while i < entries.len()
        invariant
            i <= entries@.len(),
            out@ == spec_matching_paths(*config, entries@.subrange(0, i as int)),
        decreases entries@.len() - i,
    {
        let ghost prefix = entries@.subrange(0, i as int);
        let ghost next = entries@.subrange(0, i as int + 1);
        assert(next.drop_last() =~= prefix);
        if passes_filters(config, &entries[i]) {
            out.push(entries[i].path.clone());
        }
        i += 1;
    }
    assert(entries@.subrange(0, entries@.len() as int) =~= entries@);
    out
}

/// The lines joined by single newline characters, in order; empty when
/// there are no lines.
pub open spec fn spec_joined(lines: Seq<String>) -> Seq<char>
    decreases lines.len(),
{
    if lines.len() == 0 {
        Seq::empty()
    } else if lines.len() == 1 {
        lines[0]@
    } else {
        spec_joined(lines.drop_last()) + seq!['\n'] + lines.last()@
    }
}

/// Joins lines with single newline characters, like the lines' own
/// concatenation with `\n` between neighbours.
pub fn join_lines(lines: &Vec<String>) -> (r: String)
    ensures
        r@ == spec_joined(lines@),
{
    let mut out = String::new();
    let mut i: usize = 0;
    while i < lines.len()
        invariant
            i <= lines@.len(),
            out@ == spec_joined(lines@.subrange(0, i as int)),
        decreases lines@.len() - i,
    {
        proof {
            reveal_strlit("\n");
        }
        let ghost prefix = lines@.subrange(0, i as int);
        let ghost next = lines@.subrange(0, i as int + 1);
        assert(next.drop_last() =~= prefix);
        if i > 0 {
            out.append("\n");
            assert("\n"@ =~= seq!['\n']);
        }
        out.append(lines[i].as_str());
        proof {
            if i == 0 {
                assert(out@ =~= spec_joined(next));
            } else {
                assert(out@ =~= spec_joined(prefix) + seq!['\n'] + lines@[i as int]@);
            }
        }
        i += 1;
    }
    assert(lines@.subrange(0, lines@.len() as int) =~= lines@);
    out
}

/// With no requested entry types, every entry passes the type filter.
pub proof fn lemma_empty_type_filter_passes(c: Config, e: Entry)
    requires
        c.entry_types@.len() == 0,
    ensures
        spec_passes_type_filter(c, e),
{
}

/// With no name patterns, every entry passes the name filter.
pub proof fn lemma_empty_name_filter_passes(c: Config, e: Entry)
    requires
        c.names@.len() == 0,
    ensures
        spec_passes_name_filter(c, e),
{
}

/// An entry passes overall exactly when it passes the type filter and the
/// name filter: the two filter categories conjoin.
pub proof fn lemma_filters_conjoin(c: Config, e: Entry)
    ensures
        spec_passes_filters(c, e) <==> (spec_passes_type_filter(c, e) && spec_passes_name_filter(
            c,
            e,
        )),
{
}

/// The name filter reads the bare file name only: two entries with the same
/// file name fare alike, whatever their full paths.
pub proof fn lemma_name_filter_reads_file_name_only(c: Config, e1: Entry, e2: Entry)
    requires
        e1.file_name@ == e2.file_name@,
    ensures
        spec_passes_name_filter(c, e1) == spec_passes_name_filter(c, e2),
{
    if c.names@.len() > 0 {
        if spec_passes_name_filter(c, e1) {
            let i = choose|i: int|
                0 <= i < c.names@.len() && regex_match(c.names@[i].source(), e1.file_name@);
            assert(regex_match(c.names@[i].source(), e2.file_name@));
        }
        if spec_passes_name_filter(c, e2) {
            let i = choose|i: int|
                0 <= i < c.names@.len() && regex_match(c.names@[i].source(), e2.file_name@);
            assert(regex_match(c.names@[i].source(), e1.file_name@));
        }
    }
}

/// Requested entry types combine by OR: with at least one requested type,
/// an entry passes the type filter exactly when its classification matches
/// some requested type.
pub proof fn lemma_type_filter_or_semantics(c: Config, e: Entry)
    requires
        c.entry_types@.len() > 0,
    ensures
        spec_passes_type_filter(c, e) <==> exists|i: int|
            0 <= i < c.entry_types@.len() && entry_matches_type(e, c.entry_types@[i]),
{
}

/// The output block one root path produces: the matching entries' paths in
/// traversal order, joined by newlines. The caller prints the block followed
/// by one newline of its own, so a root path with no matches still yields an
/// empty line.
pub fn root_block(config: &Config, entries: &Vec<Entry>) -> (r: String)
    ensures
        r@ == spec_joined(spec_matching_paths(*config, entries@)),
{
    let matches = matching_paths(config, entries);
    join_lines(&matches)
}

} // verus!
