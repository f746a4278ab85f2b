use uv_workspace::settings::{Options, ParseError, SchemaError};
use uv_workspace::values::{
    AnnotationStyle, IndexStrategy, KeyringProvider, LinkMode, PackageNameSpecifier,
    PreReleaseMode, ResolutionMode, Timestamp,
};

fn parse_ok(text: &str) -> Options {
    match Options::from_toml_text(text) {
        Ok(o) => o,
        Err(e) => panic!("expected a parse, got {:?}", e),
    }
}

fn parse_err(text: &str) -> ParseError {
    match Options::from_toml_text(text) {
        Ok(o) => panic!("expected a failure, got {:?}", o),
        Err(e) => e,
    }
}

#[test]
fn empty_document_sets_nothing() {
    let o = parse_ok("");
    assert_eq!(o.quiet, None);
    assert_eq!(o.verbose, None);
    assert_eq!(o.native_tls, None);
    assert!(o.pip.is_none());
    assert!(o.resolver.is_none());
    assert!(o.installer.is_none());
}

#[test]
fn global_flags_parse() {
    let o = parse_ok("quiet = true\nverbose = false\nnative-tls = true\n");
    assert_eq!(o.quiet, Some(true));
    assert_eq!(o.verbose, Some(false));
    assert_eq!(o.native_tls, Some(true));
    assert!(o.pip.is_none());
}

#[test]
fn absent_fields_stay_unset() {
    let o = parse_ok("verbose = true\n");
    assert_eq!(o.verbose, Some(true));
    assert_eq!(o.quiet, None);
}

#[test]
fn full_pip_tier_parses() {
    let text = "\
[pip]
system = true
offline = false
index-url = \"https://example.org/simple\"
extra-index-url = \"https://mirror.example.org/simple\"
no-index = false
find-links = [\"https://example.org/links\", \"./wheels\"]
index-strategy = \"unsafe-best-match\"
keyring-provider = \"subprocess\"
no-build = true
no-binary = [\":all:\"]
only-binary = [\":none:\", \"numpy\"]
no-build-isolation = true
";
    let o = parse_ok(text);
    let pip = o.pip.as_ref().unwrap();
    assert_eq!(pip.system, Some(true));
    assert_eq!(pip.offline, Some(false));
    assert_eq!(
        pip.index_url.as_ref().unwrap().text,
        "https://example.org/simple"
    );
    assert_eq!(
        pip.extra_index_url.as_ref().unwrap().text,
        "https://mirror.example.org/simple"
    );
    assert_eq!(pip.no_index, Some(false));
    let links = pip.find_links.as_ref().unwrap();
    assert_eq!(links.len(), 2);
    assert_eq!(links[0].text, "https://example.org/links");
    assert_eq!(links[1].text, "./wheels");
    assert_eq!(pip.index_strategy, Some(IndexStrategy::UnsafeBestMatch));
    assert_eq!(pip.keyring_provider, Some(KeyringProvider::Subprocess));
    assert_eq!(pip.no_build, Some(true));
    assert_eq!(
        pip.no_binary.as_ref().unwrap()[0],
        PackageNameSpecifier::All
    );
    let only = pip.only_binary.as_ref().unwrap();
    assert_eq!(only[0], PackageNameSpecifier::NotAny);
    match &only[1] {
        PackageNameSpecifier::Package(p) => assert_eq!(p.text, "numpy"),
        other => panic!("expected a named package, got {:?}", other),
    }
    assert_eq!(pip.no_build_isolation, Some(true));
    assert!(pip.resolver.is_none());
    assert!(pip.installer.is_none());
}

#[test]
fn full_resolver_tier_parses() {
    let text = "\
[resolver]
resolution = \"lowest-direct\"
prerelease = \"if-necessary-or-explicit\"
no-strip-extras = true
no-annotate = false
no-header = true
generate-hashes = true
legacy-setup-py = false
config-setting = { editable-mode = \"compat\" }
python-version = \"3.11\"
exclude-newer = \"1970-01-01T00:01:00Z\"
no-emit-package = [\"setuptools\", \"wheel\"]
emit-index-url = true
emit-find-links = false
annotation-style = \"split\"
";
    let o = parse_ok(text);
    let r = o.resolver.as_ref().unwrap();
    assert_eq!(r.resolution, Some(ResolutionMode::LowestDirect));
    assert_eq!(r.prerelease, Some(PreReleaseMode::IfNecessaryOrExplicit));
    assert_eq!(r.no_strip_extras, Some(true));
    assert_eq!(r.no_annotate, Some(false));
    assert_eq!(r.no_header, Some(true));
    assert_eq!(r.generate_hashes, Some(true));
    assert_eq!(r.legacy_setup_py, Some(false));
    let cs = r.config_setting.as_ref().unwrap();
    assert_eq!(cs.entries.len(), 1);
    assert_eq!(cs.entries[0].0, "editable-mode");
    assert_eq!(cs.entries[0].1, "compat");
    assert_eq!(r.python_version.as_ref().unwrap().text, "3.11");
    assert_eq!(
        r.exclude_newer,
        Some(Timestamp { seconds: 60, nanos: 0 })
    );
    let names = r.no_emit_package.as_ref().unwrap();
    assert_eq!(names.len(), 2);
    assert_eq!(names[0].text, "setuptools");
    assert_eq!(names[1].text, "wheel");
    assert_eq!(r.emit_index_url, Some(true));
    assert_eq!(r.emit_find_links, Some(false));
    assert_eq!(r.annotation_style, Some(AnnotationStyle::Split));
}

#[test]
fn installer_tier_parses() {
    let o = parse_ok("[installer]\nlink-mode = \"hardlink\"\ncompile = true\n");
    let i = o.installer.as_ref().unwrap();
    assert_eq!(i.link_mode, Some(LinkMode::HardLink));
    assert_eq!(i.compile, Some(true));
}

#[test]
fn resolver_and_installer_nest_under_pip() {
    let text = "\
[pip]
offline = true

[pip.resolver]
resolution = \"highest\"

[pip.installer]
link-mode = \"clone\"
";
    let o = parse_ok(text);
    let pip = o.pip.as_ref().unwrap();
    assert_eq!(pip.offline, Some(true));
    assert_eq!(
        pip.resolver.as_ref().unwrap().resolution,
        Some(ResolutionMode::Highest)
    );
    assert_eq!(
        pip.installer.as_ref().unwrap().link_mode,
        Some(LinkMode::CloneLink)
    );
    assert!(o.resolver.is_none());
    assert!(o.installer.is_none());
}

#[test]
fn unknown_root_field_fails() {
    let e = parse_err("quiet = true\ntypo-field = 1\n");
    assert!(matches!(
        e,
        ParseError::Schema(SchemaError::UnknownField(f)) if f == "typo-field"
    ));
}

#[test]
fn unknown_pip_field_fails() {
    let e = parse_err("[pip]\noffline = true\nofline = false\n");
    assert!(matches!(
        e,
        ParseError::Schema(SchemaError::UnknownField(f)) if f == "ofline"
    ));
}

#[test]
fn unknown_resolver_field_fails() {
    let e = parse_err("[resolver]\nresolution = \"highest\"\nresolutionn = \"lowest\"\n");
    assert!(matches!(e, ParseError::Schema(SchemaError::UnknownField(_))));
}

#[test]
fn unknown_nested_resolver_field_fails() {
    let e = parse_err("[pip.resolver]\nno-such-option = true\n");
    assert!(matches!(e, ParseError::Schema(SchemaError::UnknownField(_))));
}

#[test]
fn unknown_installer_field_fails() {
    let e = parse_err("[installer]\ncompile = true\ndecompile = false\n");
    assert!(matches!(e, ParseError::Schema(SchemaError::UnknownField(_))));
}

#[test]
fn wrong_type_for_flag_fails() {
    let e = parse_err("quiet = \"yes\"\n");
    assert!(matches!(
        e,
        ParseError::Schema(SchemaError::WrongType(f)) if f == "quiet"
    ));
}

#[test]
fn float_in_flag_position_fails() {
    let e = parse_err("verbose = 1.5\n");
    assert!(matches!(e, ParseError::Schema(SchemaError::WrongType(_))));
}

#[test]
fn unrecognized_enum_token_fails() {
    let e = parse_err("[resolver]\nresolution = \"newest\"\n");
    assert!(matches!(
        e,
        ParseError::Schema(SchemaError::InvalidValue(f)) if f == "resolution"
    ));
}

#[test]
fn bad_link_mode_token_fails() {
    let e = parse_err("[installer]\nlink-mode = \"symlink-maybe\"\n");
    assert!(matches!(e, ParseError::Schema(SchemaError::InvalidValue(_))));
}

#[test]
fn malformed_timestamp_fails() {
    let e = parse_err("[resolver]\nexclude-newer = \"yesterday\"\n");
    assert!(matches!(
        e,
        ParseError::Schema(SchemaError::InvalidValue(f)) if f == "exclude-newer"
    ));
}

#[test]
fn timestamp_with_offset_parses_to_instant() {
    let o = parse_ok("[resolver]\nexclude-newer = \"1970-01-01T01:00:00+01:00\"\n");
    let r = o.resolver.as_ref().unwrap();
    assert_eq!(r.exclude_newer, Some(Timestamp { seconds: 0, nanos: 0 }));
}

#[test]
fn toml_datetime_literal_for_timestamp_fails() {
    let e = parse_err("[resolver]\nexclude-newer = 2024-03-25T00:00:00Z\n");
    assert!(matches!(e, ParseError::Schema(SchemaError::WrongType(_))));
}

#[test]
fn malformed_python_version_fails() {
    let e = parse_err("[resolver]\npython-version = \"3..11\"\n");
    assert!(matches!(e, ParseError::Schema(SchemaError::InvalidValue(_))));
    let e2 = parse_err("[resolver]\npython-version = \"3.11.\"\n");
    assert!(matches!(e2, ParseError::Schema(SchemaError::InvalidValue(_))));
    let e3 = parse_err("[resolver]\npython-version = \"3.x\"\n");
    assert!(matches!(e3, ParseError::Schema(SchemaError::InvalidValue(_))));
}

#[test]
fn malformed_package_name_fails() {
    let e = parse_err("[resolver]\nno-emit-package = [\"-setuptools\"]\n");
    assert!(matches!(e, ParseError::Schema(SchemaError::InvalidValue(_))));
}

#[test]
fn malformed_index_url_fails() {
    let e = parse_err("[pip]\nindex-url = \"https://exa mple.org\"\n");
    assert!(matches!(e, ParseError::Schema(SchemaError::InvalidValue(_))));
    let e2 = parse_err("[pip]\nindex-url = \"\"\n");
    assert!(matches!(e2, ParseError::Schema(SchemaError::InvalidValue(_))));
}

#[test]
fn empty_find_links_entry_fails() {
    let e = parse_err("[pip]\nfind-links = [\"\"]\n");
    assert!(matches!(e, ParseError::Schema(SchemaError::InvalidValue(_))));
}

#[test]
fn non_text_config_setting_value_fails() {
    let e = parse_err("[resolver]\nconfig-setting = { jobs = 4 }\n");
    assert!(matches!(e, ParseError::Schema(SchemaError::WrongType(_))));
}

#[test]
fn bad_specifier_fails() {
    let e = parse_err("[pip]\nno-binary = [\":some:\"]\n");
    assert!(matches!(e, ParseError::Schema(SchemaError::InvalidValue(_))));
}

#[test]
fn malformed_toml_is_a_syntax_failure() {
    let e = parse_err("quiet = \n");
    assert!(matches!(e, ParseError::Syntax(_)));
}

#[test]
fn duplicate_keys_are_a_syntax_failure() {
    let e = parse_err("quiet = true\nquiet = false\n");
    assert!(matches!(e, ParseError::Syntax(_)));
}
