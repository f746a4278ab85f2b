//! The workspace locator: given the contents of a path's ancestor
//! directories, nearest first, picks exactly one configuration source. In
//! each directory the dedicated configuration file takes precedence; the
//! generic project manifest is consulted only when the dedicated file is
//! absent, and only its namespaced tool table counts. The first directory
//! that yields configuration decides the whole search.

use vstd::prelude::*;
use crate::document::TomlValue;
use crate::document::parse_toml_text;
use crate::document::table_find;
use crate::document::table_get;
use crate::document::toml_doc;
use crate::settings::Options;
use crate::settings::OptionsV;
use crate::settings::ParseError;
use crate::settings::SchemaError;
use crate::settings::parse_options;
use crate::settings::spec_parse_options;

verus! {

/// The outcome of reading one candidate file: its text, its absence, or a
/// filesystem failure other than absence (permission denied, a device
/// fault), carried as the failure's message.
#[derive(Debug, Clone, PartialEq, Eq)]
pub enum FileRead {
    Present(String),
    Absent,
    Unreadable(String),
}

/// One ancestor directory as the search sees it: its path, the read outcome
/// of its dedicated configuration file, and the read outcome of its generic
/// project manifest.
#[derive(Debug, Clone, PartialEq, Eq)]
pub struct DirSource {
    pub path: String,
    pub dedicated: FileRead,
    pub manifest: FileRead,
}

/// A resolved workspace: the validated option tree paired with the path of
/// the directory that supplied it.
#[derive(Debug, Clone, PartialEq, Eq)]
pub struct Workspace {
    pub options: Options,
    pub root: String,
}

/// Why a resolution call failed: a filesystem error other than absence, or a
/// configuration source that would not parse. Absence of both files is not
/// an error; it continues the search.
#[derive(Debug, Clone, PartialEq, Eq)]
pub enum WorkspaceError {
    Io(String),
    Toml(ParseError),
}

/// The outcome one directory owes the search: configuration found, nothing
/// here (continue upward), or one of the failures that abort the search.
/// `Syntax` leaves the failure's message open; everything else is exact.
pub enum ReadSpec {
    Found(OptionsV),
    Continue,
    Io(String),
    Syntax,
    Schema(SchemaError),
}

/// The outcome the whole search owes the caller.
pub enum FindSpec {
    FoundAt(OptionsV, String),
    NoneFound,
    Io(String),
    Syntax,
    Schema(SchemaError),
}

/// What a present generic manifest document yields: the tool table parsed as
/// global options when it is present and non-empty, nothing when the
/// namespace path is absent or the tool table is empty, a failure when the
/// namespace path holds a non-table or the tool table violates the schema.
pub open spec fn spec_manifest_outcome(d: TomlValue) -> ReadSpec {
    match d {
        TomlValue::Table(es) => match table_find(es@, "tool"@) {
            Some(tool_entry) => match tool_entry.1 {
                TomlValue::Table(tes) => match table_find(tes@, "uv"@) {
                    Some(uv_entry) => match uv_entry.1 {
                        TomlValue::Table(ues) => if ues@.len() == 0 {
                            ReadSpec::Continue
                        } else {
                            match spec_parse_options(uv_entry.1) {
                                Ok(o) => ReadSpec::Found(o),
                                Err(e) => ReadSpec::Schema(e),
                            }
                        },
                        _ => ReadSpec::Schema(SchemaError::WrongType(uv_entry.0)),
                    },
                    None => ReadSpec::Continue,
                },
                _ => ReadSpec::Schema(SchemaError::WrongType(tool_entry.0)),
            },
            None => ReadSpec::Continue,
        },
        _ => ReadSpec::Schema(SchemaError::NotTable),
    }
}

/// What one directory yields: the dedicated file decides alone whenever it is
/// present or unreadable; only when it is absent is the manifest consulted.
pub open spec fn spec_read(dir: DirSource) -> ReadSpec {
    match dir.dedicated {
        FileRead::Present(s) => match toml_doc(s@) {
            Some(d) => match spec_parse_options(d) {
                Ok(o) => ReadSpec::Found(o),
                Err(e) => ReadSpec::Schema(e),
            },
            None => ReadSpec::Syntax,
        },
        FileRead::Unreadable(m) => ReadSpec::Io(m),
        FileRead::Absent => match dir.manifest {
            FileRead::Present(s) => match toml_doc(s@) {
                Some(d) => spec_manifest_outcome(d),
                None => ReadSpec::Syntax,
            },
            FileRead::Unreadable(m) => ReadSpec::Io(m),
            FileRead::Absent => ReadSpec::Continue,
        },
    }
}

/// Whether a per-directory result realizes a per-directory outcome.
pub open spec fn read_matches(r: Result<Option<Options>, WorkspaceError>, s: ReadSpec) -> bool {
    match s {
        ReadSpec::Found(o) => r matches Ok(Some(op)) && op@ == o,
        ReadSpec::Continue => r == Ok::<Option<Options>, WorkspaceError>(None),
        ReadSpec::Io(m) => r == Err::<Option<Options>, WorkspaceError>(WorkspaceError::Io(m)),
        ReadSpec::Syntax => r matches Err(WorkspaceError::Toml(ParseError::Syntax(_))),
        ReadSpec::Schema(e) => r == Err::<Option<Options>, WorkspaceError>(
            WorkspaceError::Toml(ParseError::Schema(e)),
        ),
    }
}

fn read_manifest_text(s: &str) -> (r: Result<Option<Options>, WorkspaceError>)
    ensures
        match toml_doc(s@) {
            Some(d) => read_matches(r, spec_manifest_outcome(d)),
            None => r matches Err(WorkspaceError::Toml(ParseError::Syntax(_))),
        },
{
    match parse_toml_text(s) {
        Err(m) => Err(WorkspaceError::Toml(ParseError::Syntax(m))),
        Ok(d) => match &d {
            TomlValue::Table(es) => match table_get(es, "tool") {
                None => Ok(None),
                Some(tool_entry) => match &tool_entry.1 {
                    TomlValue::Table(tes) => match table_get(tes, "uv") {
                        None => Ok(None),
                        Some(uv_entry) => match &uv_entry.1 {
                            TomlValue::Table(ues) => if ues.len() == 0 {
                                Ok(None)
                            } else {
                                match parse_options(&uv_entry.1) {
                                    Ok(o) => Ok(Some(o)),
                                    Err(e) => Err(WorkspaceError::Toml(ParseError::Schema(e))),
                                }
                            },
                            _ => Err(
                                WorkspaceError::Toml(
                                    ParseError::Schema(
                                        SchemaError::WrongType(uv_entry.0.clone()),
                                    ),
                                ),
                            ),
                        },
                    },
                    _ => Err(
                        WorkspaceError::Toml(
                            ParseError::Schema(SchemaError::WrongType(tool_entry.0.clone())),
                        ),
                    ),
                },
            },
            _ => Err(WorkspaceError::Toml(ParseError::Schema(SchemaError::NotTable))),
        },
    }
}

/// Reads one directory's configuration: the dedicated file parsed as global
/// options when present, else the manifest's tool table; `Ok(None)` means the
/// directory has no configuration and the search may continue.
pub fn read_options(dir: &DirSource) -> (r: Result<Option<Options>, WorkspaceError>)
    ensures
        read_matches(r, spec_read(*dir)),
{
    match &dir.dedicated {
        FileRead::Present(s) => match Options::from_toml_text(s.as_str()) {
            Ok(o) => Ok(Some(o)),
            Err(e) => Err(WorkspaceError::Toml(e)),
        },
        FileRead::Unreadable(m) => Err(WorkspaceError::Io(m.clone())),
        FileRead::Absent => match &dir.manifest {
            FileRead::Present(s) => read_manifest_text(s.as_str()),
            FileRead::Unreadable(m) => Err(WorkspaceError::Io(m.clone())),
            FileRead::Absent => Ok(None),
        },
    }
}

/// The search's outcome over the directories from position `i` on: the first
/// directory that does not continue decides.
pub open spec fn spec_find_from(chain: Seq<DirSource>, i: int) -> FindSpec
    decreases chain.len() - i,
{
    if i < 0 || i >= chain.len() {
        FindSpec::NoneFound
    } else {
        match spec_read(chain[i]) {
            ReadSpec::Found(o) => FindSpec::FoundAt(o, chain[i].path),
            ReadSpec::Continue => spec_find_from(chain, i + 1),
            ReadSpec::Io(m) => FindSpec::Io(m),
            ReadSpec::Syntax => FindSpec::Syntax,
            ReadSpec::Schema(e) => FindSpec::Schema(e),
        }
    }
}

/// The search's outcome over a whole ancestor chain, nearest first.
pub open spec fn spec_find(chain: Seq<DirSource>) -> FindSpec {
    spec_find_from(chain, 0)
}

/// Whether a search result realizes a search outcome.
pub open spec fn find_matches(r: Result<Option<Workspace>, WorkspaceError>, s: FindSpec) -> bool {
    match s {
        FindSpec::FoundAt(o, root) => r matches Ok(Some(w)) && w.options@ == o && w.root == root,
        FindSpec::NoneFound => r == Ok::<Option<Workspace>, WorkspaceError>(None),
        FindSpec::Io(m) => r == Err::<Option<Workspace>, WorkspaceError>(WorkspaceError::Io(m)),
        FindSpec::Syntax => r matches Err(WorkspaceError::Toml(ParseError::Syntax(_))),
        FindSpec::Schema(e) => r == Err::<Option<Workspace>, WorkspaceError>(
            WorkspaceError::Toml(ParseError::Schema(e)),
        ),
    }
}

fn find_from(chain: &Vec<DirSource>, i: usize) -> (r: Result<Option<Workspace>, WorkspaceError>)
    requires
        i <= chain.len(),
    ensures
        find_matches(r, spec_find_from(chain@, i as int)),
    decreases chain.len() - i,
{
    if i == chain.len() {
        Ok(None)
    } else {
        let dir = &chain[i];
        match read_options(dir) {
            Ok(Some(o)) => Ok(Some(Workspace { options: o, root: dir.path.clone() })),
            Ok(None) => find_from(chain, i + 1),
            Err(e) => Err(e),
        }
    }
}

impl Workspace {
    /// Finds the workspace for a path whose ancestor directories' contents
    /// are given nearest first: the first directory that yields configuration
    /// supplies the options and becomes the root; a directory with no
    /// configuration passes the search upward; exhausting the chain yields
    /// `Ok(None)`, not an error.
    pub fn find(chain: &Vec<DirSource>) -> (r: Result<Option<Workspace>, WorkspaceError>)
        ensures
            find_matches(r, spec_find(chain@)),
    {
        find_from(chain, 0)
    }
}

// ---------------------------------------------------------------------------
// Laws of the search.
// ---------------------------------------------------------------------------

proof fn lemma_find_skips_continues(chain: Seq<DirSource>, j: int, i: int)
    requires
        0 <= j <= i <= chain.len(),
        forall|m: int| j <= m < i ==> spec_read(#[trigger] chain[m]) == ReadSpec::Continue,
    ensures
        spec_find_from(chain, j) == spec_find_from(chain, i),
    decreases i - j,
{
    if j < i {
        lemma_find_skips_continues(chain, j + 1, i);
    }
}

/// Nearest wins: when every directory nearer than `i` yields no
/// configuration and directory `i` yields options, the search resolves to
/// directory `i`'s options and path, whatever any farther directory holds.
pub proof fn lemma_nearest_wins(chain: Seq<DirSource>, i: int)
    requires
        0 <= i < chain.len(),
        forall|j: int| 0 <= j < i ==> spec_read(#[trigger] chain[j]) == ReadSpec::Continue,
        spec_read(chain[i]) is Found,
    ensures
        spec_find(chain) == FindSpec::FoundAt(spec_read(chain[i])->Found_0, chain[i].path),
{
    lemma_find_skips_continues(chain, 0, i);
}

/// Dedicated over generic, within a directory: when the dedicated file is
/// present, the directory's outcome is the same whatever its manifest holds.
pub proof fn lemma_dedicated_over_generic(d1: DirSource, d2: DirSource)
    requires
        d1.dedicated == d2.dedicated,
        d1.dedicated is Present,
    ensures
        spec_read(d1) == spec_read(d2),
{
}

proof fn lemma_merge_from(c1: Seq<DirSource>, c2: Seq<DirSource>, j: int, i: int)
    requires
        0 <= j <= i < c1.len(),
        i < c2.len(),
        forall|m: int| j <= m <= i ==> c1[m] == #[trigger] c2[m],
        !(spec_read(c1[i]) is Continue),
    ensures
        spec_find_from(c1, j) == spec_find_from(c2, j),
    decreases i - j,
{
    assert(c1[j] == c2[j]);
    if j < i && spec_read(c1[j]) is Continue {
        lemma_merge_from(c1, c2, j + 1, i);
    }
}

/// No cross-directory merge: once directory `i` decides the search (its
/// outcome is not "continue"), the result is identical for any two chains
/// that agree up to and including `i` — fields the deciding source leaves
/// unset stay unset, whatever farther ancestors set.
pub proof fn lemma_no_cross_directory_merge(c1: Seq<DirSource>, c2: Seq<DirSource>, i: int)
    requires
        0 <= i < c1.len(),
        i < c2.len(),
        forall|j: int| 0 <= j <= i ==> c1[j] == #[trigger] c2[j],
        !(spec_read(c1[i]) is Continue),
    ensures
        spec_find(c1) == spec_find(c2),
{
    lemma_merge_from(c1, c2, 0, i);
}

proof fn lemma_no_config_from(chain: Seq<DirSource>, i: int)
    requires
        0 <= i,
        forall|j: int|
            0 <= j < chain.len() ==> (#[trigger] chain[j]).dedicated is Absent
                && chain[j].manifest is Absent,
    ensures
        spec_find_from(chain, i) == FindSpec::NoneFound,
    decreases chain.len() - i,
{
    if i < chain.len() {
        assert(spec_read(chain[i]) == ReadSpec::Continue);
        lemma_no_config_from(chain, i + 1);
    }
}

/// No-config termination: a chain in which no directory holds either file
/// resolves to "no workspace found", which `find` returns as `Ok(None)`,
/// not as an error.
pub proof fn lemma_no_config_none_found(chain: Seq<DirSource>)
    requires
        forall|j: int|
            0 <= j < chain.len() ==> (#[trigger] chain[j]).dedicated is Absent
                && chain[j].manifest is Absent,
    ensures
        spec_find(chain) == FindSpec::NoneFound,
{
    lemma_no_config_from(chain, 0);
}

/// Absent tool table: a directory whose dedicated file is absent and whose
/// manifest parses to a table without the namespace entry yields no
/// configuration, so the search continues upward.
pub proof fn lemma_absent_tool_table(dir: DirSource, s: String, d: TomlValue)
    requires
        dir.dedicated is Absent,
        dir.manifest == FileRead::Present(s),
        toml_doc(s@) == Some(d),
        d matches TomlValue::Table(es) && table_find(es@, "tool"@) is None,
    ensures
        spec_read(dir) == ReadSpec::Continue,
{
}

/// Determinism of resolution: two results that realize the same search
/// outcome agree — the same options and root, the same "none found", or the
/// same failure — except possibly in the message of a syntax failure.
pub proof fn lemma_find_deterministic(
    r1: Result<Option<Workspace>, WorkspaceError>,
    r2: Result<Option<Workspace>, WorkspaceError>,
    s: FindSpec,
)
    requires
        find_matches(r1, s),
        find_matches(r2, s),
        !(s is Syntax),
    ensures
        match (r1, r2) {
            (Ok(Some(w1)), Ok(Some(w2))) => w1.options@ == w2.options@ && w1.root == w2.root,
            (Ok(None), Ok(None)) => true,
            (Err(e1), Err(e2)) => e1 == e2,
            _ => false,
        },
{
}

proof fn lemma_found_root_from(chain: Seq<DirSource>, j: int) -> (i: int)
    requires
        0 <= j <= chain.len(),
        spec_find_from(chain, j) is FoundAt,
    ensures
        j <= i < chain.len(),
        chain[i].path == spec_find_from(chain, j)->FoundAt_1,
        spec_read(chain[i]) == ReadSpec::Found(spec_find_from(chain, j)->FoundAt_0),
        forall|m: int| j <= m < i ==> spec_read(#[trigger] chain[m]) == ReadSpec::Continue,
    decreases chain.len() - j,
{
    if spec_read(chain[j]) is Found {
        j
    } else {
        assert(spec_read(chain[j]) is Continue);
        lemma_found_root_from(chain, j + 1)
    }
}

/// A resolved workspace's root is real: it is the path of one searched
/// directory — the nearest one that yields configuration, every nearer
/// directory having yielded none.
pub proof fn lemma_found_root(chain: Seq<DirSource>) -> (i: int)
    requires
        spec_find(chain) is FoundAt,
    ensures
        0 <= i < chain.len(),
        chain[i].path == spec_find(chain)->FoundAt_1,
        spec_read(chain[i]) == ReadSpec::Found(spec_find(chain)->FoundAt_0),
        forall|j: int| 0 <= j < i ==> spec_read(#[trigger] chain[j]) == ReadSpec::Continue,
{
    lemma_found_root_from(chain, 0)
}

} // verus!
