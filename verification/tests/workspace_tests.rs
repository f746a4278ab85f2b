use uv_workspace::settings::ParseError;
use uv_workspace::workspace::{DirSource, FileRead, Workspace, WorkspaceError};

fn dir(path: &str, dedicated: FileRead, manifest: FileRead) -> DirSource {
    DirSource {
        path: path.to_string(),
        dedicated,
        manifest,
    }
}

fn empty_dir(path: &str) -> DirSource {
    dir(path, FileRead::Absent, FileRead::Absent)
}

fn found(r: Result<Option<Workspace>, WorkspaceError>) -> Workspace {
    match r {
        Ok(Some(w)) => w,
        other => panic!("expected a workspace, got {:?}", other),
    }
}

#[test]
fn nearest_ancestor_wins() {
    let chain = vec![
        empty_dir("/proj/sub"),
        dir(
            "/proj",
            FileRead::Present("verbose = true\n".to_string()),
            FileRead::Absent,
        ),
        dir(
            "/",
            FileRead::Present("verbose = false\nquiet = true\n".to_string()),
            FileRead::Absent,
        ),
    ];
    let w = found(Workspace::find(&chain));
    assert_eq!(w.root, "/proj");
    assert_eq!(w.options.verbose, Some(true));
    assert_eq!(w.options.quiet, None);
}

#[test]
fn farther_ancestors_never_fill_unset_fields() {
    let near_only = vec![
        dir(
            "/a/b",
            FileRead::Present("verbose = true\n".to_string()),
            FileRead::Absent,
        ),
        empty_dir("/a"),
        empty_dir("/"),
    ];
    let far_sets_more = vec![
        dir(
            "/a/b",
            FileRead::Present("verbose = true\n".to_string()),
            FileRead::Absent,
        ),
        dir(
            "/a",
            FileRead::Present("quiet = true\nnative-tls = true\n".to_string()),
            FileRead::Absent,
        ),
        empty_dir("/"),
    ];
    let w1 = found(Workspace::find(&near_only));
    let w2 = found(Workspace::find(&far_sets_more));
    assert_eq!(w1, w2);
    assert_eq!(w2.options.quiet, None);
    assert_eq!(w2.options.native_tls, None);
}

#[test]
fn dedicated_file_beats_manifest_in_same_directory() {
    let chain = vec![dir(
        "/proj",
        FileRead::Present("quiet = true\n".to_string()),
        FileRead::Present("[tool.uv]\nquiet = false\nverbose = true\n".to_string()),
    )];
    let w = found(Workspace::find(&chain));
    assert_eq!(w.options.quiet, Some(true));
    assert_eq!(w.options.verbose, None);
}

#[test]
fn manifest_tool_table_resolves() {
    let chain = vec![dir(
        "/proj",
        FileRead::Absent,
        FileRead::Present("[tool.uv.pip]\noffline = true\n".to_string()),
    )];
    let w = found(Workspace::find(&chain));
    assert_eq!(w.root, "/proj");
    let pip = w.options.pip.as_ref().unwrap();
    assert_eq!(pip.offline, Some(true));
    assert_eq!(pip.system, None);
    assert_eq!(w.options.quiet, None);
    assert!(w.options.resolver.is_none());
}

#[test]
fn no_configuration_anywhere_is_not_an_error() {
    let chain = vec![empty_dir("/a/b/c"), empty_dir("/a/b"), empty_dir("/a"), empty_dir("/")];
    assert_eq!(Workspace::find(&chain), Ok(None));
}

#[test]
fn empty_chain_finds_nothing() {
    let chain: Vec<DirSource> = Vec::new();
    assert_eq!(Workspace::find(&chain), Ok(None));
}

#[test]
fn manifest_without_tool_table_continues_upward() {
    let chain = vec![
        dir(
            "/proj/sub",
            FileRead::Absent,
            FileRead::Present("[project]\nname = \"demo\"\n".to_string()),
        ),
        dir(
            "/proj",
            FileRead::Present("quiet = true\n".to_string()),
            FileRead::Absent,
        ),
    ];
    let w = found(Workspace::find(&chain));
    assert_eq!(w.root, "/proj");
    assert_eq!(w.options.quiet, Some(true));
}

#[test]
fn manifest_with_other_tools_only_continues_upward() {
    let chain = vec![
        dir(
            "/proj/sub",
            FileRead::Absent,
            FileRead::Present("[tool.black]\nline-length = 88\n".to_string()),
        ),
        dir(
            "/proj",
            FileRead::Present("verbose = true\n".to_string()),
            FileRead::Absent,
        ),
    ];
    let w = found(Workspace::find(&chain));
    assert_eq!(w.root, "/proj");
}

#[test]
fn empty_tool_table_counts_as_no_configuration() {
    let chain = vec![
        dir(
            "/proj/sub",
            FileRead::Absent,
            FileRead::Present("[tool.uv]\n".to_string()),
        ),
        dir(
            "/proj",
            FileRead::Present("quiet = true\n".to_string()),
            FileRead::Absent,
        ),
    ];
    let w = found(Workspace::find(&chain));
    assert_eq!(w.root, "/proj");
}

#[test]
fn empty_dedicated_file_still_resolves() {
    // An empty dedicated file is a found workspace with nothing set; only an
    // empty *tool table* counts as configuration-absent.
    let chain = vec![
        dir("/proj", FileRead::Present("".to_string()), FileRead::Absent),
        dir(
            "/",
            FileRead::Present("quiet = true\n".to_string()),
            FileRead::Absent,
        ),
    ];
    let w = found(Workspace::find(&chain));
    assert_eq!(w.root, "/proj");
    assert_eq!(w.options.quiet, None);
    assert_eq!(w.options.verbose, None);
}

#[test]
fn unreadable_dedicated_file_aborts_with_io_error() {
    let chain = vec![
        dir(
            "/proj",
            FileRead::Unreadable("permission denied".to_string()),
            FileRead::Absent,
        ),
        dir(
            "/",
            FileRead::Present("quiet = true\n".to_string()),
            FileRead::Absent,
        ),
    ];
    assert_eq!(
        Workspace::find(&chain),
        Err(WorkspaceError::Io("permission denied".to_string()))
    );
}

#[test]
fn unreadable_manifest_aborts_with_io_error() {
    let chain = vec![dir(
        "/proj",
        FileRead::Absent,
        FileRead::Unreadable("device fault".to_string()),
    )];
    assert_eq!(
        Workspace::find(&chain),
        Err(WorkspaceError::Io("device fault".to_string()))
    );
}

#[test]
fn broken_dedicated_file_does_not_fall_back() {
    // The same directory holds a valid manifest and a farther ancestor holds
    // valid configuration; the broken dedicated file still aborts the search.
    let chain = vec![
        dir(
            "/proj",
            FileRead::Present("quiet = 5\n".to_string()),
            FileRead::Present("[tool.uv]\nquiet = true\n".to_string()),
        ),
        dir(
            "/",
            FileRead::Present("quiet = true\n".to_string()),
            FileRead::Absent,
        ),
    ];
    assert!(matches!(
        Workspace::find(&chain),
        Err(WorkspaceError::Toml(_))
    ));
}

#[test]
fn broken_manifest_aborts_the_search() {
    let chain = vec![
        dir(
            "/proj",
            FileRead::Absent,
            FileRead::Present("[tool.uv\n".to_string()),
        ),
        dir(
            "/",
            FileRead::Present("quiet = true\n".to_string()),
            FileRead::Absent,
        ),
    ];
    assert!(matches!(
        Workspace::find(&chain),
        Err(WorkspaceError::Toml(ParseError::Syntax(_)))
    ));
}

#[test]
fn invalid_tool_table_aborts_the_search() {
    let chain = vec![
        dir(
            "/proj",
            FileRead::Absent,
            FileRead::Present("[tool.uv]\nmystery = true\n".to_string()),
        ),
        empty_dir("/"),
    ];
    assert!(matches!(
        Workspace::find(&chain),
        Err(WorkspaceError::Toml(ParseError::Schema(_)))
    ));
}

#[test]
fn non_table_tool_namespace_aborts_the_search() {
    let chain = vec![dir(
        "/proj",
        FileRead::Absent,
        FileRead::Present("[tool]\nuv = 5\n".to_string()),
    )];
    assert!(matches!(
        Workspace::find(&chain),
        Err(WorkspaceError::Toml(ParseError::Schema(_)))
    ));
}

#[test]
fn read_options_reports_absence_as_none() {
    let d = empty_dir("/anywhere");
    assert_eq!(uv_workspace::workspace::read_options(&d), Ok(None));
}

#[test]
fn read_options_parses_dedicated_content() {
    let d = dir(
        "/p",
        FileRead::Present("[installer]\ncompile = false\n".to_string()),
        FileRead::Absent,
    );
    let o = uv_workspace::workspace::read_options(&d).unwrap().unwrap();
    assert_eq!(o.installer.as_ref().unwrap().compile, Some(false));
}
