//! The command resolver: turns each command folder into a display-ready
//! `Command` record, either from its `info.toml` descriptor or, when none is
//! present, from its folder name.

use vstd::prelude::*;
use vstd::string::StringExecFns;
use crate::config::CommandConfig;
use crate::config::ConfigError;
use crate::config::config_fields_of;
use crate::config::first_missing_field;
use crate::config::toml_table_of;

verus! {

broadcast use vstd::string::group_string_axioms;

/// One resolvable command entry of the registry.
#[derive(Debug)]
pub struct Command {
    /// Display name: the descriptor's, or derived from the folder name.
    pub name: String,
    /// Free text; empty when no descriptor is present.
    pub description: String,
    /// Grouping label; empty when no descriptor is present.
    pub category: String,
    /// The folder itself when a descriptor was found, else the folder's
    /// expected launcher script `command.sh`.
    pub path: String,
}

/// What the filesystem showed of one subdirectory of the command root: its
/// full path, its base name, and the text of its `info.toml`, when that file
/// exists.
#[derive(Debug)]
pub struct FolderEntry {
    pub path: String,
    pub name: String,
    pub config: Option<String>,
}

/// A fatal resolution failure: the offending folder and the reason.
#[derive(Debug)]
pub struct ResolveError {
    pub path: String,
    pub message: String,
}

/// The title-cased form of a string, as heck's `ToTitleCase` computes it:
/// every word capitalized, words joined by single spaces.
pub uninterp spec fn title_case_of(s: Seq<char>) -> Seq<char>;

/// A hyphen becomes a space; any other character stays.
pub open spec fn spec_space_for_dash(c: char) -> char {
    if c == '-' {
        ' '
    } else {
        c
    }
}

/// The string with every hyphen replaced by a space.
pub open spec fn dashes_to_spaces(s: Seq<char>) -> Seq<char> {
    s.map_values(|c: char| spec_space_for_dash(c))
}

/// The display name derived from a folder name: hyphens become spaces, then
/// the result is title-cased.
pub open spec fn derived_name(folder: Seq<char>) -> Seq<char> {
    title_case_of(dashes_to_spaces(folder))
}

/// Relies on heck's `ToTitleCase` for `str`: the result depends on the
/// characters alone.
#[verifier::external_body]
fn to_title_case(s: &str) -> (r: String)
    ensures
        r@ == title_case_of(s@),
{
    heck::ToTitleCase::to_title_case(s)
}

/// Relies on `String::push`: appends exactly the one character.
#[verifier::external_body]
fn push_char(s: &mut String, c: char)
    ensures
        final(s)@ == old(s)@ + seq![c],
{
    s.push(c);
}

fn space_for_dash(c: char) -> (r: char)
    ensures
        r == spec_space_for_dash(c),
{
    if c == '-' {
        ' '
    } else {
        c
    }
}

/// Replaces every hyphen of `s` by a space.
pub fn replace_dashes(s: &str) -> (r: String)
    ensures
        r@ == dashes_to_spaces(s@),
{
    let mut out = String::new();
    for c in it: s.chars()
        invariant
            it.seq() == s@,
            out@ == dashes_to_spaces(s@.take(it.index() as int)),
    {
        let d = space_for_dash(c);
        push_char(&mut out, d);
        assert(s@.take(it.index() + 1) == s@.take(it.index() as int).push(c));
        assert(out@ == dashes_to_spaces(s@.take(it.index() + 1)));
    }
    assert(s@.take(s@.len() as int) == s@);
    out
}

/// Derives a command's display name from its folder name.
pub fn derive_name(folder_name: &str) -> (r: String)
    ensures
        r@ == derived_name(folder_name@),
{
    let spaced = replace_dashes(folder_name);
    to_title_case(spaced.as_str())
}

/// Deriving a display name is deterministic: the same folder name always
/// yields the same derived name.
pub proof fn lemma_derived_name_deterministic(a: Seq<char>, b: Seq<char>)
    requires
        a == b,
    ensures
        derived_name(a) == derived_name(b),
{
}

/// The hyphen-replacement step of the derivation is idempotent: a second
/// pass finds no hyphen left and changes nothing.
pub proof fn lemma_dashes_to_spaces_idempotent(s: Seq<char>)
    ensures
        dashes_to_spaces(dashes_to_spaces(s)) == dashes_to_spaces(s),
{
    assert(dashes_to_spaces(dashes_to_spaces(s)) =~= dashes_to_spaces(s));
}

/// Whether one directory entry resolves: always, when it has no descriptor;
/// else exactly when its descriptor text parses with all three fields.
pub open spec fn entry_resolves(e: FolderEntry) -> bool {
    match e.config {
        None => true,
        Some(c) => config_fields_of(c@) is Some,
    }
}

/// The expected launcher script inside a folder.
pub open spec fn launcher_path(folder: Seq<char>) -> Seq<char> {
    folder + "/command.sh"@
}

/// How a resolved `Command` relates to the directory entry it came from.
/// Without a descriptor, the name is derived from the folder name, the two
/// text fields are empty, and the path points at the launcher script; with
/// one, the three fields are taken verbatim and the path is the folder.
pub open spec fn command_resolved_from(cmd: Command, e: FolderEntry) -> bool {
    match e.config {
        None => {
            &&& cmd.name@ == derived_name(e.name@)
            &&& cmd.description@ == Seq::<char>::empty()
            &&& cmd.category@ == Seq::<char>::empty()
            &&& cmd.path@ == launcher_path(e.path@)
        },
        Some(c) => {
            &&& config_fields_of(c@) matches Some(f)
            &&& cmd.name@ == f.0
            &&& cmd.category@ == f.1
            &&& cmd.description@ == f.2
            &&& cmd.path@ == e.path@
        },
    }
}

/// The message a fatal error carries when a descriptor lacks a field.
pub open spec fn missing_field_message(field: Seq<char>) -> Seq<char> {
    "missing required field "@ + field
}

fn config_error_to_resolve_error(e: ConfigError, path: &String) -> (r: ResolveError)
    ensures
        r.path@ == path@,
        e matches ConfigError::MissingField(f) ==> r.message@ == missing_field_message(f@),
{
    match e {
        ConfigError::Syntax(m) => ResolveError { path: path.clone(), message: m },
        ConfigError::MissingField(f) => ResolveError {
            path: path.clone(),
            message: "missing required field ".to_owned().concat(f.as_str()),
        },
    }
}

impl Command {
    /// Resolves one directory entry. A folder without a descriptor always
    /// resolves, its identity inferred from its name; a folder whose
    /// descriptor is malformed is a fatal error naming that folder, and,
    /// when the text is valid TOML, the first missing field.
    pub fn resolve(entry: &FolderEntry) -> (r: Result<Command, ResolveError>)
        ensures
            r is Ok <==> entry_resolves(*entry),
            r matches Ok(cmd) ==> command_resolved_from(cmd, *entry),
            r matches Err(err) ==> {
                &&& entry.config matches Some(c)
                &&& err.path@ == entry.path@
                &&& (toml_table_of(c@) matches Some(m) ==> err.message@
                    == missing_field_message(first_missing_field(m)))
            },
    {
        match &entry.config {
            None => {
                let name = derive_name(entry.name.as_str());
                let path = entry.path.clone().concat("/command.sh");
                Ok(Command {
                    name,
                    description: String::new(),
                    category: String::new(),
                    path,
                })
            },
            Some(content) => {
                match CommandConfig::parse(content.as_str()) {
                    Ok(cfg) => Ok(Command {
                        name: cfg.name,
                        description: cfg.description,
                        category: cfg.category,
                        path: entry.path.clone(),
                    }),
                    Err(e) => Err(config_error_to_resolve_error(e, &entry.path)),
                }
            },
        }
    }

    /// Resolves every entry, in order. Succeeds exactly when every entry
    /// resolves, with one `Command` per entry; an empty list of entries
    /// yields an empty registry, not an error. Otherwise the error names the
    /// first entry that does not resolve.
    pub fn list(entries: &Vec<FolderEntry>) -> (r: Result<Vec<Command>, ResolveError>)
        ensures
            r is Ok <==> (forall|i: int|
                0 <= i < entries@.len() ==> #[trigger] entry_resolves(entries@[i])),
            r matches Ok(cmds) ==> {
                &&& cmds@.len() == entries@.len()
                &&& forall|i: int| 0 <= i < entries@.len()
                    ==> command_resolved_from(#[trigger] cmds@[i], entries@[i])
            },
            entries@.len() == 0 ==> (r matches Ok(cmds) && cmds@.len() == 0),
            r matches Err(err) ==> exists|i: int|
                {
                    &&& 0 <= i < entries@.len()
                    &&& !entry_resolves(#[trigger] entries@[i])
                    &&& err.path@ == entries@[i].path@
                    &&& forall|j: int| 0 <= j < i ==> entry_resolves(entries@[j])
                },
    {
        let mut cmds: Vec<Command> = Vec::new();
        let mut k: usize = 0;
        while k < entries.len()
            invariant
                k <= entries@.len(),
                cmds@.len() == k,
                forall|i: int| 0 <= i < k ==> #[trigger] entry_resolves(entries@[i]),
                forall|i: int| 0 <= i < k
                    ==> command_resolved_from(#[trigger] cmds@[i], entries@[i]),
            decreases entries@.len() - k,
        {
            match Command::resolve(&entries[k]) {
                Ok(c) => {
                    cmds.push(c);
                },
                Err(e) => {
                    return Err(e);
                },
            }
            k += 1;
        }
        Ok(cmds)
    }
}

} // verus!
