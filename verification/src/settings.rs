//! The layered option schema: global options, pip-compatibility options,
//! resolver options and installer options. Parsing a document against the
//! schema is closed: a field name that is not recognized at its tier is a
//! hard failure, never silently dropped. Every option is optional; absent
//! fields stay `None`, and no defaults are injected here.

use vstd::prelude::*;
use crate::document::TomlValue;
use crate::document::toml_doc;
use crate::document::parse_toml_text;
use crate::str_eq;
use crate::values::AnnotationStyle;
use crate::values::ConfigSettings;
use crate::values::FlatIndexLocation;
use crate::values::IndexStrategy;
use crate::values::IndexUrl;
use crate::values::KeyringProvider;
use crate::values::LinkMode;
use crate::values::PackageName;
use crate::values::PackageNameSpecifier;
use crate::values::PreReleaseMode;
use crate::values::PythonVersion;
use crate::values::ResolutionMode;
use crate::values::Timestamp;
use crate::values::check_location_text;
use crate::values::check_package_name;
use crate::values::check_url_text;
use crate::values::check_version_text;
use crate::values::location_text_ok;
use crate::values::package_name_ok;
use crate::values::parse_annotation_style_token;
use crate::values::parse_index_strategy_token;
use crate::values::parse_keyring_provider_token;
use crate::values::parse_link_mode_token;
use crate::values::parse_prerelease_token;
use crate::values::parse_resolution_token;
use crate::values::parse_rfc3339;
use crate::values::parse_specifier;
use crate::values::annotation_style_token;
use crate::values::index_strategy_token;
use crate::values::keyring_provider_token;
use crate::values::link_mode_token;
use crate::values::prerelease_token;
use crate::values::resolution_token;
use crate::values::rfc3339_instant;
use crate::values::specifier_of;
use crate::values::url_text_ok;
use crate::values::version_text_ok;

verus! {

/// The first schema violation found in a document: a field name that no tier
/// recognizes, a recognized field holding a value of the wrong shape, a
/// recognized field holding a malformed value, or a document whose top level
/// is not a table at all.
#[derive(Debug, Clone, PartialEq, Eq)]
pub enum SchemaError {
    UnknownField(String),
    WrongType(String),
    InvalidValue(String),
    NotTable,
}

/// A parse failure of one configuration source: either the text is not
/// well-formed TOML, or it is well-formed and violates the option schema.
#[derive(Debug, Clone, PartialEq, Eq)]
pub enum ParseError {
    Syntax(String),
    Schema(SchemaError),
}

// ---------------------------------------------------------------------------
// The option tiers, and their spec-level images.
// ---------------------------------------------------------------------------

/// Installer options: how installed files are placed.
#[derive(Debug, Clone, PartialEq, Eq)]
pub struct InstallerOptions {
    pub link_mode: Option<LinkMode>,
    pub compile: Option<bool>,
}

/// The spec-level image of `InstallerOptions`.
pub struct InstallerOptionsV {
    pub link_mode: Option<LinkMode>,
    pub compile: Option<bool>,
}

impl View for InstallerOptions {
    type V = InstallerOptionsV;

    open spec fn view(&self) -> InstallerOptionsV {
        InstallerOptionsV { link_mode: self.link_mode, compile: self.compile }
    }
}

/// Resolver options: how package versions are chosen and rendered.
#[derive(Debug, Clone, PartialEq, Eq)]
pub struct ResolverOptions {
    pub resolution: Option<ResolutionMode>,
    pub prerelease: Option<PreReleaseMode>,
    pub no_strip_extras: Option<bool>,
    pub no_annotate: Option<bool>,
    pub no_header: Option<bool>,
    pub generate_hashes: Option<bool>,
    pub legacy_setup_py: Option<bool>,
    pub config_setting: Option<ConfigSettings>,
    pub python_version: Option<PythonVersion>,
    pub exclude_newer: Option<Timestamp>,
    pub no_emit_package: Option<Vec<PackageName>>,
    pub emit_index_url: Option<bool>,
    pub emit_find_links: Option<bool>,
    pub annotation_style: Option<AnnotationStyle>,
}

/// The spec-level image of `ResolverOptions`.
pub struct ResolverOptionsV {
    pub resolution: Option<ResolutionMode>,
    pub prerelease: Option<PreReleaseMode>,
    pub no_strip_extras: Option<bool>,
    pub no_annotate: Option<bool>,
    pub no_header: Option<bool>,
    pub generate_hashes: Option<bool>,
    pub legacy_setup_py: Option<bool>,
    pub config_setting: Option<Seq<(String, String)>>,
    pub python_version: Option<PythonVersion>,
    pub exclude_newer: Option<Timestamp>,
    pub no_emit_package: Option<Seq<PackageName>>,
    pub emit_index_url: Option<bool>,
    pub emit_find_links: Option<bool>,
    pub annotation_style: Option<AnnotationStyle>,
}

impl View for ResolverOptions {
    type V = ResolverOptionsV;

    open spec fn view(&self) -> ResolverOptionsV {
        ResolverOptionsV {
            resolution: self.resolution,
            prerelease: self.prerelease,
            no_strip_extras: self.no_strip_extras,
            no_annotate: self.no_annotate,
            no_header: self.no_header,
            generate_hashes: self.generate_hashes,
            legacy_setup_py: self.legacy_setup_py,
            config_setting: match self.config_setting {
                Some(cs) => Some(cs.entries@),
                None => None,
            },
            python_version: self.python_version,
            exclude_newer: self.exclude_newer,
            no_emit_package: match self.no_emit_package {
                Some(ns) => Some(ns@),
                None => None,
            },
            emit_index_url: self.emit_index_url,
            emit_find_links: self.emit_find_links,
            annotation_style: self.annotation_style,
        }
    }
}

/// Pip-compatibility options: environment, network, index, credential and
/// build controls, with optionally nested resolver and installer groups.
#[derive(Debug, Clone, PartialEq, Eq)]
pub struct PipOptions {
    pub system: Option<bool>,
    pub offline: Option<bool>,
    pub index_url: Option<IndexUrl>,
    pub extra_index_url: Option<IndexUrl>,
    pub no_index: Option<bool>,
    pub find_links: Option<Vec<FlatIndexLocation>>,
    pub index_strategy: Option<IndexStrategy>,
    pub keyring_provider: Option<KeyringProvider>,
    pub no_build: Option<bool>,
    pub no_binary: Option<Vec<PackageNameSpecifier>>,
    pub only_binary: Option<Vec<PackageNameSpecifier>>,
    pub no_build_isolation: Option<bool>,
    pub resolver: Option<ResolverOptions>,
    pub installer: Option<InstallerOptions>,
}

/// The spec-level image of `PipOptions`.
pub struct PipOptionsV {
    pub system: Option<bool>,
    pub offline: Option<bool>,
    pub index_url: Option<IndexUrl>,
    pub extra_index_url: Option<IndexUrl>,
    pub no_index: Option<bool>,
    pub find_links: Option<Seq<FlatIndexLocation>>,
    pub index_strategy: Option<IndexStrategy>,
    pub keyring_provider: Option<KeyringProvider>,
    pub no_build: Option<bool>,
    pub no_binary: Option<Seq<PackageNameSpecifier>>,
    pub only_binary: Option<Seq<PackageNameSpecifier>>,
    pub no_build_isolation: Option<bool>,
    pub resolver: Option<ResolverOptionsV>,
    pub installer: Option<InstallerOptionsV>,
}

impl View for PipOptions {
    type V = PipOptionsV;

    open spec fn view(&self) -> PipOptionsV {
        PipOptionsV {
            system: self.system,
            offline: self.offline,
            index_url: self.index_url,
            extra_index_url: self.extra_index_url,
            no_index: self.no_index,
            find_links: match self.find_links {
                Some(ls) => Some(ls@),
                None => None,
            },
            index_strategy: self.index_strategy,
            keyring_provider: self.keyring_provider,
            no_build: self.no_build,
            no_binary: match self.no_binary {
                Some(ss) => Some(ss@),
                None => None,
            },
            only_binary: match self.only_binary {
                Some(ss) => Some(ss@),
                None => None,
            },
            no_build_isolation: self.no_build_isolation,
            resolver: match self.resolver {
                Some(r) => Some(r@),
                None => None,
            },
            installer: match self.installer {
                Some(i) => Some(i@),
                None => None,
            },
        }
    }
}

/// The global option tier: tool-wide flags and the three optional subsystem
/// groups.
#[derive(Debug, Clone, PartialEq, Eq)]
pub struct Options {
    pub quiet: Option<bool>,
    pub verbose: Option<bool>,
    pub native_tls: Option<bool>,
    pub pip: Option<PipOptions>,
    pub resolver: Option<ResolverOptions>,
    pub installer: Option<InstallerOptions>,
}

/// The spec-level image of `Options`.
pub struct OptionsV {
    pub quiet: Option<bool>,
    pub verbose: Option<bool>,
    pub native_tls: Option<bool>,
    pub pip: Option<PipOptionsV>,
    pub resolver: Option<ResolverOptionsV>,
    pub installer: Option<InstallerOptionsV>,
}

impl View for Options {
    type V = OptionsV;

    open spec fn view(&self) -> OptionsV {
        OptionsV {
            quiet: self.quiet,
            verbose: self.verbose,
            native_tls: self.native_tls,
            pip: match self.pip {
                Some(p) => Some(p@),
                None => None,
            },
            resolver: match self.resolver {
                Some(r) => Some(r@),
                None => None,
            },
            installer: match self.installer {
                Some(i) => Some(i@),
                None => None,
            },
        }
    }
}

// ---------------------------------------------------------------------------
// Empty (all-unset) values of each tier.
// ---------------------------------------------------------------------------

/// All-unset installer options.
pub open spec fn installer_v_empty() -> InstallerOptionsV {
    InstallerOptionsV { link_mode: None, compile: None }
}

/// All-unset resolver options.
pub open spec fn resolver_v_empty() -> ResolverOptionsV {
    ResolverOptionsV {
        resolution: None,
        prerelease: None,
        no_strip_extras: None,
        no_annotate: None,
        no_header: None,
        generate_hashes: None,
        legacy_setup_py: None,
        config_setting: None,
        python_version: None,
        exclude_newer: None,
        no_emit_package: None,
        emit_index_url: None,
        emit_find_links: None,
        annotation_style: None,
    }
}

/// All-unset pip-compatibility options.
pub open spec fn pip_v_empty() -> PipOptionsV {
    PipOptionsV {
        system: None,
        offline: None,
        index_url: None,
        extra_index_url: None,
        no_index: None,
        find_links: None,
        index_strategy: None,
        keyring_provider: None,
        no_build: None,
        no_binary: None,
        only_binary: None,
        no_build_isolation: None,
        resolver: None,
        installer: None,
    }
}

/// All-unset global options.
pub open spec fn options_v_empty() -> OptionsV {
    OptionsV {
        quiet: None,
        verbose: None,
        native_tls: None,
        pip: None,
        resolver: None,
        installer: None,
    }
}

impl Default for InstallerOptions {
    /// The all-unset installer options.
    fn default() -> (r: InstallerOptions)
        ensures
            r@ == installer_v_empty(),
    {
        InstallerOptions { link_mode: None, compile: None }
    }
}

impl Default for ResolverOptions {
    /// The all-unset resolver options.
    fn default() -> (r: ResolverOptions)
        ensures
            r@ == resolver_v_empty(),
    {
        ResolverOptions {
            resolution: None,
            prerelease: None,
            no_strip_extras: None,
            no_annotate: None,
            no_header: None,
            generate_hashes: None,
            legacy_setup_py: None,
            config_setting: None,
            python_version: None,
            exclude_newer: None,
            no_emit_package: None,
            emit_index_url: None,
            emit_find_links: None,
            annotation_style: None,
        }
    }
}

impl Default for PipOptions {
    /// The all-unset pip-compatibility options.
    fn default() -> (r: PipOptions)
        ensures
            r@ == pip_v_empty(),
    {
        PipOptions {
            system: None,
            offline: None,
            index_url: None,
            extra_index_url: None,
            no_index: None,
            find_links: None,
            index_strategy: None,
            keyring_provider: None,
            no_build: None,
            no_binary: None,
            only_binary: None,
            no_build_isolation: None,
            resolver: None,
            installer: None,
        }
    }
}

impl Default for Options {
    /// The all-unset global options.
    fn default() -> (r: Options)
        ensures
            r@ == options_v_empty(),
    {
        Options {
            quiet: None,
            verbose: None,
            native_tls: None,
            pip: None,
            resolver: None,
            installer: None,
        }
    }
}

// ---------------------------------------------------------------------------
// Typed element lists.
// ---------------------------------------------------------------------------

/// Folds an array's elements into find-links locations; a non-text or
/// malformed element is the first violation.
pub open spec fn spec_location_list(
    elems: Seq<TomlValue>,
    k: String,
    i: int,
    acc: Seq<FlatIndexLocation>,
) -> Result<Seq<FlatIndexLocation>, SchemaError>
    decreases elems.len() - i,
{
    if i < 0 || i >= elems.len() {
        Ok(acc)
    } else {
        match elems[i] {
            TomlValue::Text(s) => if location_text_ok(s@) {
                spec_location_list(elems, k, i + 1, acc.push(FlatIndexLocation { text: s }))
            } else {
                Err(SchemaError::InvalidValue(k))
            },
            _ => Err(SchemaError::WrongType(k)),
        }
    }
}

fn location_list_from(
    elems: &Vec<TomlValue>,
    k: &String,
    i: usize,
    acc: Vec<FlatIndexLocation>,
) -> (r: Result<Vec<FlatIndexLocation>, SchemaError>)
    requires
        i <= elems.len(),
    ensures
        match r {
            Ok(ls) => spec_location_list(elems@, *k, i as int, acc@) == Ok::<
                Seq<FlatIndexLocation>,
                SchemaError,
            >(ls@),
            Err(e) => spec_location_list(elems@, *k, i as int, acc@) == Err::<
                Seq<FlatIndexLocation>,
                SchemaError,
            >(e),
        },
    decreases elems.len() - i,
{
    if i == elems.len() {
        Ok(acc)
    } else {
        match &elems[i] {
            TomlValue::Text(s) => if check_location_text(s.as_str()) {
                let mut acc2 = acc;
                acc2.push(FlatIndexLocation { text: s.clone() });
                location_list_from(elems, k, i + 1, acc2)
            } else {
                Err(SchemaError::InvalidValue(k.clone()))
            },
            _ => Err(SchemaError::WrongType(k.clone())),
        }
    }
}

/// Folds an array's elements into package-name specifiers.
pub open spec fn spec_specifier_list(
    elems: Seq<TomlValue>,
    k: String,
    i: int,
    acc: Seq<PackageNameSpecifier>,
) -> Result<Seq<PackageNameSpecifier>, SchemaError>
    decreases elems.len() - i,
{
    if i < 0 || i >= elems.len() {
        Ok(acc)
    } else {
        match elems[i] {
            TomlValue::Text(s) => match specifier_of(s) {
                Some(sp) => spec_specifier_list(elems, k, i + 1, acc.push(sp)),
                None => Err(SchemaError::InvalidValue(k)),
            },
            _ => Err(SchemaError::WrongType(k)),
        }
    }
}

fn specifier_list_from(
    elems: &Vec<TomlValue>,
    k: &String,
    i: usize,
    acc: Vec<PackageNameSpecifier>,
) -> (r: Result<Vec<PackageNameSpecifier>, SchemaError>)
    requires
        i <= elems.len(),
    ensures
        match r {
            Ok(ss) => spec_specifier_list(elems@, *k, i as int, acc@) == Ok::<
                Seq<PackageNameSpecifier>,
                SchemaError,
            >(ss@),
            Err(e) => spec_specifier_list(elems@, *k, i as int, acc@) == Err::<
                Seq<PackageNameSpecifier>,
                SchemaError,
            >(e),
        },
    decreases elems.len() - i,
{
    if i == elems.len() {
        Ok(acc)
    } else {
        match &elems[i] {
            TomlValue::Text(s) => match parse_specifier(s) {
                Some(sp) => {
                    let mut acc2 = acc;
                    acc2.push(sp);
                    specifier_list_from(elems, k, i + 1, acc2)
                },
                None => Err(SchemaError::InvalidValue(k.clone())),
            },
            _ => Err(SchemaError::WrongType(k.clone())),
        }
    }
}

/// Folds an array's elements into package names.
pub open spec fn spec_name_list(
    elems: Seq<TomlValue>,
    k: String,
    i: int,
    acc: Seq<PackageName>,
) -> Result<Seq<PackageName>, SchemaError>
    decreases elems.len() - i,
{
    if i < 0 || i >= elems.len() {
        Ok(acc)
    } else {
        match elems[i] {
            TomlValue::Text(s) => if package_name_ok(s@) {
                spec_name_list(elems, k, i + 1, acc.push(PackageName { text: s }))
            } else {
                Err(SchemaError::InvalidValue(k))
            },
            _ => Err(SchemaError::WrongType(k)),
        }
    }
}

fn name_list_from(elems: &Vec<TomlValue>, k: &String, i: usize, acc: Vec<PackageName>) -> (r:
    Result<Vec<PackageName>, SchemaError>)
    requires
        i <= elems.len(),
    ensures
        match r {
            Ok(ns) => spec_name_list(elems@, *k, i as int, acc@) == Ok::<
                Seq<PackageName>,
                SchemaError,
            >(ns@),
            Err(e) => spec_name_list(elems@, *k, i as int, acc@) == Err::<
                Seq<PackageName>,
                SchemaError,
            >(e),
        },
    decreases elems.len() - i,
{
    if i == elems.len() {
        Ok(acc)
    } else {
        match &elems[i] {
            TomlValue::Text(s) => if check_package_name(s.as_str()) {
                let mut acc2 = acc;
                acc2.push(PackageName { text: s.clone() });
                name_list_from(elems, k, i + 1, acc2)
            } else {
                Err(SchemaError::InvalidValue(k.clone()))
            },
            _ => Err(SchemaError::WrongType(k.clone())),
        }
    }
}

/// Folds a table's entries into build-backend settings; every value must be
/// text.
pub open spec fn spec_config_entries(
    es: Seq<(String, TomlValue)>,
    k: String,
    i: int,
    acc: Seq<(String, String)>,
) -> Result<Seq<(String, String)>, SchemaError>
    decreases es.len() - i,
{
    if i < 0 || i >= es.len() {
        Ok(acc)
    } else {
        match es[i].1 {
            TomlValue::Text(s) => spec_config_entries(es, k, i + 1, acc.push((es[i].0, s))),
            _ => Err(SchemaError::WrongType(k)),
        }
    }
}

fn config_entries_from(
    es: &Vec<(String, TomlValue)>,
    k: &String,
    i: usize,
    acc: Vec<(String, String)>,
) -> (r: Result<Vec<(String, String)>, SchemaError>)
    requires
        i <= es.len(),
    ensures
        match r {
            Ok(cs) => spec_config_entries(es@, *k, i as int, acc@) == Ok::<
                Seq<(String, String)>,
                SchemaError,
            >(cs@),
            Err(e) => spec_config_entries(es@, *k, i as int, acc@) == Err::<
                Seq<(String, String)>,
                SchemaError,
            >(e),
        },
    decreases es.len() - i,
{
    if i == es.len() {
        Ok(acc)
    } else {
        let p = &es[i];
        match &p.1 {
            TomlValue::Text(s) => {
                let mut acc2 = acc;
                acc2.push((p.0.clone(), s.clone()));
                config_entries_from(es, k, i + 1, acc2)
            },
            _ => Err(SchemaError::WrongType(k.clone())),
        }
    }
}

// ---------------------------------------------------------------------------
// The installer tier.
// ---------------------------------------------------------------------------

/// Whether the installer tier recognizes a field name.
pub open spec fn installer_key_known(k: Seq<char>) -> bool {
    k == "link-mode"@ || k == "compile"@
}

/// One field of the installer tier applied to the accumulated group.
pub open spec fn spec_installer_step(acc: InstallerOptionsV, k: String, v: TomlValue) -> Result<
    InstallerOptionsV,
    SchemaError,
> {
    if k@ == "link-mode"@ {
        match v {
            TomlValue::Text(s) => match link_mode_token(s@) {
                Some(m) => Ok(InstallerOptionsV { link_mode: Some(m), ..acc }),
                None => Err(SchemaError::InvalidValue(k)),
            },
            _ => Err(SchemaError::WrongType(k)),
        }
    } else if k@ == "compile"@ {
        match v {
            TomlValue::Bool(b) => Ok(InstallerOptionsV { compile: Some(b), ..acc }),
            _ => Err(SchemaError::WrongType(k)),
        }
    } else {
        Err(SchemaError::UnknownField(k))
    }
}

/// The installer tier's entries folded in order, stopping at the first
/// violation.
pub open spec fn spec_installer_fold(
    es: Seq<(String, TomlValue)>,
    i: int,
    acc: InstallerOptionsV,
) -> Result<InstallerOptionsV, SchemaError>
    decreases es.len() - i,
{
    if i < 0 || i >= es.len() {
        Ok(acc)
    } else {
        match spec_installer_step(acc, es[i].0, es[i].1) {
            Ok(a2) => spec_installer_fold(es, i + 1, a2),
            Err(e) => Err(e),
        }
    }
}

/// The installer group a value denotes: it must be a table of recognized
/// installer fields.
pub open spec fn spec_parse_installer(k: String, v: TomlValue) -> Result<
    InstallerOptionsV,
    SchemaError,
> {
    match v {
        TomlValue::Table(es) => spec_installer_fold(es@, 0, installer_v_empty()),
        _ => Err(SchemaError::WrongType(k)),
    }
}

fn installer_apply(acc: InstallerOptions, k: &String, v: &TomlValue) -> (r: Result<
    InstallerOptions,
    SchemaError,
>)
    ensures
        match r {
            Ok(a2) => spec_installer_step(acc@, *k, *v) == Ok::<InstallerOptionsV, SchemaError>(
                a2@,
            ),
            Err(e) => spec_installer_step(acc@, *k, *v) == Err::<InstallerOptionsV, SchemaError>(e),
        },
{
    if str_eq(k.as_str(), "link-mode") {
        match v {
            TomlValue::Text(s) => match parse_link_mode_token(s.as_str()) {
                Some(m) => Ok(InstallerOptions { link_mode: Some(m), ..acc }),
                None => Err(SchemaError::InvalidValue(k.clone())),
            },
            _ => Err(SchemaError::WrongType(k.clone())),
        }
    } else if str_eq(k.as_str(), "compile") {
        match v {
            TomlValue::Bool(b) => Ok(InstallerOptions { compile: Some(*b), ..acc }),
            _ => Err(SchemaError::WrongType(k.clone())),
        }
    } else {
        Err(SchemaError::UnknownField(k.clone()))
    }
}

fn installer_fold(es: &Vec<(String, TomlValue)>, i: usize, acc: InstallerOptions) -> (r: Result<
    InstallerOptions,
    SchemaError,
>)
    requires
        i <= es.len(),
    ensures
        match r {
            Ok(a2) => spec_installer_fold(es@, i as int, acc@) == Ok::<
                InstallerOptionsV,
                SchemaError,
            >(a2@),
            Err(e) => spec_installer_fold(es@, i as int, acc@) == Err::<
                InstallerOptionsV,
                SchemaError,
            >(e),
        },
    decreases es.len() - i,
{
    if i == es.len() {
        Ok(acc)
    } else {
        let p = &es[i];
        match installer_apply(acc, &p.0, &p.1) {
            Ok(a2) => installer_fold(es, i + 1, a2),
            Err(e) => Err(e),
        }
    }
}

/// Parses a value as the installer tier.
pub fn parse_installer(k: &String, v: &TomlValue) -> (r: Result<InstallerOptions, SchemaError>)
    ensures
        match r {
            Ok(o) => spec_parse_installer(*k, *v) == Ok::<InstallerOptionsV, SchemaError>(o@),
            Err(e) => spec_parse_installer(*k, *v) == Err::<InstallerOptionsV, SchemaError>(e),
        },
{
    match v {
        TomlValue::Table(es) => installer_fold(es, 0, InstallerOptions::default()),
        _ => Err(SchemaError::WrongType(k.clone())),
    }
}

// ---------------------------------------------------------------------------
// The resolver tier.
// ---------------------------------------------------------------------------

/// Whether the resolver tier recognizes a field name.
pub open spec fn resolver_key_known(k: Seq<char>) -> bool {
    ||| k == "resolution"@
    ||| k == "prerelease"@
    ||| k == "no-strip-extras"@
    ||| k == "no-annotate"@
    ||| k == "no-header"@
    ||| k == "generate-hashes"@
    ||| k == "legacy-setup-py"@
    ||| k == "config-setting"@
    ||| k == "python-version"@
    ||| k == "exclude-newer"@
    ||| k == "no-emit-package"@
    ||| k == "emit-index-url"@
    ||| k == "emit-find-links"@
    ||| k == "annotation-style"@
}

/// One field of the resolver tier applied to the accumulated group.
pub open spec fn spec_resolver_step(acc: ResolverOptionsV, k: String, v: TomlValue) -> Result<
    ResolverOptionsV,
    SchemaError,
> {
    if k@ == "resolution"@ {
        match v {
            TomlValue::Text(s) => match resolution_token(s@) {
                Some(m) => Ok(ResolverOptionsV { resolution: Some(m), ..acc }),
                None => Err(SchemaError::InvalidValue(k)),
            },
            _ => Err(SchemaError::WrongType(k)),
        }
    } else if k@ == "prerelease"@ {
        match v {
            TomlValue::Text(s) => match prerelease_token(s@) {
                Some(m) => Ok(ResolverOptionsV { prerelease: Some(m), ..acc }),
                None => Err(SchemaError::InvalidValue(k)),
            },
            _ => Err(SchemaError::WrongType(k)),
        }
    } else if k@ == "no-strip-extras"@ {
        match v {
            TomlValue::Bool(b) => Ok(ResolverOptionsV { no_strip_extras: Some(b), ..acc }),
            _ => Err(SchemaError::WrongType(k)),
        }
    } else if k@ == "no-annotate"@ {
        match v {
            TomlValue::Bool(b) => Ok(ResolverOptionsV { no_annotate: Some(b), ..acc }),
            _ => Err(SchemaError::WrongType(k)),
        }
    } else if k@ == "no-header"@ {
        match v {
            TomlValue::Bool(b) => Ok(ResolverOptionsV { no_header: Some(b), ..acc }),
            _ => Err(SchemaError::WrongType(k)),
        }
    } else if k@ == "generate-hashes"@ {
        match v {
            TomlValue::Bool(b) => Ok(ResolverOptionsV { generate_hashes: Some(b), ..acc }),
            _ => Err(SchemaError::WrongType(k)),
        }
    } else if k@ == "legacy-setup-py"@ {
        match v {
            TomlValue::Bool(b) => Ok(ResolverOptionsV { legacy_setup_py: Some(b), ..acc }),
            _ => Err(SchemaError::WrongType(k)),
        }
    } else if k@ == "config-setting"@ {
        match v {
            TomlValue::Table(es) => match spec_config_entries(es@, k, 0, Seq::empty()) {
                Ok(cs) => Ok(ResolverOptionsV { config_setting: Some(cs), ..acc }),
                Err(e) => Err(e),
            },
            _ => Err(SchemaError::WrongType(k)),
        }
    } else if k@ == "python-version"@ {
        match v {
            TomlValue::Text(s) => if version_text_ok(s@) {
                Ok(ResolverOptionsV { python_version: Some(PythonVersion { text: s }), ..acc })
            } else {
                Err(SchemaError::InvalidValue(k))
            },
            _ => Err(SchemaError::WrongType(k)),
        }
    } else if k@ == "exclude-newer"@ {
        match v {
            TomlValue::Text(s) => match rfc3339_instant(s@) {
                Some(t) => Ok(
                    ResolverOptionsV {
                        exclude_newer: Some(Timestamp { seconds: t.0, nanos: t.1 }),
                        ..acc
                    },
                ),
                None => Err(SchemaError::InvalidValue(k)),
            },
            _ => Err(SchemaError::WrongType(k)),
        }
    } else if k@ == "no-emit-package"@ {
        match v {
            TomlValue::Arr(items) => match spec_name_list(items@, k, 0, Seq::empty()) {
                Ok(ns) => Ok(ResolverOptionsV { no_emit_package: Some(ns), ..acc }),
                Err(e) => Err(e),
            },
            _ => Err(SchemaError::WrongType(k)),
        }
    } else if k@ == "emit-index-url"@ {
        match v {
            TomlValue::Bool(b) => Ok(ResolverOptionsV { emit_index_url: Some(b), ..acc }),
            _ => Err(SchemaError::WrongType(k)),
        }
    } else if k@ == "emit-find-links"@ {
        match v {
            TomlValue::Bool(b) => Ok(ResolverOptionsV { emit_find_links: Some(b), ..acc }),
            _ => Err(SchemaError::WrongType(k)),
        }
    } else if k@ == "annotation-style"@ {
        match v {
            TomlValue::Text(s) => match annotation_style_token(s@) {
                Some(m) => Ok(ResolverOptionsV { annotation_style: Some(m), ..acc }),
                None => Err(SchemaError::InvalidValue(k)),
            },
            _ => Err(SchemaError::WrongType(k)),
        }
    } else {
        Err(SchemaError::UnknownField(k))
    }
}

/// The resolver tier's entries folded in order, stopping at the first
/// violation.
pub open spec fn spec_resolver_fold(
    es: Seq<(String, TomlValue)>,
    i: int,
    acc: ResolverOptionsV,
) -> Result<ResolverOptionsV, SchemaError>
    decreases es.len() - i,
{
    if i < 0 || i >= es.len() {
        Ok(acc)
    } else {
        match spec_resolver_step(acc, es[i].0, es[i].1) {
            Ok(a2) => spec_resolver_fold(es, i + 1, a2),
            Err(e) => Err(e),
        }
    }
}

/// The resolver group a value denotes: it must be a table of recognized
/// resolver fields.
pub open spec fn spec_parse_resolver(k: String, v: TomlValue) -> Result<
    ResolverOptionsV,
    SchemaError,
> {
    match v {
        TomlValue::Table(es) => spec_resolver_fold(es@, 0, resolver_v_empty()),
        _ => Err(SchemaError::WrongType(k)),
    }
}

fn resolver_apply(acc: ResolverOptions, k: &String, v: &TomlValue) -> (r: Result<
    ResolverOptions,
    SchemaError,
>)
    ensures
        match r {
            Ok(a2) => spec_resolver_step(acc@, *k, *v) == Ok::<ResolverOptionsV, SchemaError>(a2@),
            Err(e) => spec_resolver_step(acc@, *k, *v) == Err::<ResolverOptionsV, SchemaError>(e),
        },
{
    if str_eq(k.as_str(), "resolution") {
        match v {
            TomlValue::Text(s) => match parse_resolution_token(s.as_str()) {
                Some(m) => Ok(ResolverOptions { resolution: Some(m), ..acc }),
                None => Err(SchemaError::InvalidValue(k.clone())),
            },
            _ => Err(SchemaError::WrongType(k.clone())),
        }
    } else if str_eq(k.as_str(), "prerelease") {
        match v {
            TomlValue::Text(s) => match parse_prerelease_token(s.as_str()) {
                Some(m) => Ok(ResolverOptions { prerelease: Some(m), ..acc }),
                None => Err(SchemaError::InvalidValue(k.clone())),
            },
            _ => Err(SchemaError::WrongType(k.clone())),
        }
    } else if str_eq(k.as_str(), "no-strip-extras") {
        match v {
            TomlValue::Bool(b) => Ok(ResolverOptions { no_strip_extras: Some(*b), ..acc }),
            _ => Err(SchemaError::WrongType(k.clone())),
        }
    } else if str_eq(k.as_str(), "no-annotate") {
        match v {
            TomlValue::Bool(b) => Ok(ResolverOptions { no_annotate: Some(*b), ..acc }),
            _ => Err(SchemaError::WrongType(k.clone())),
        }
    } else if str_eq(k.as_str(), "no-header") {
        match v {
            TomlValue::Bool(b) => Ok(ResolverOptions { no_header: Some(*b), ..acc }),
            _ => Err(SchemaError::WrongType(k.clone())),
        }
    } else if str_eq(k.as_str(), "generate-hashes") {
        match v {
            TomlValue::Bool(b) => Ok(ResolverOptions { generate_hashes: Some(*b), ..acc }),
            _ => Err(SchemaError::WrongType(k.clone())),
        }
    } else if str_eq(k.as_str(), "legacy-setup-py") {
        match v {
            TomlValue::Bool(b) => Ok(ResolverOptions { legacy_setup_py: Some(*b), ..acc }),
            _ => Err(SchemaError::WrongType(k.clone())),
        }
    } else if str_eq(k.as_str(), "config-setting") {
        match v {
            TomlValue::Table(es) => match config_entries_from(es, k, 0, Vec::new()) {
                Ok(cs) => Ok(
                    ResolverOptions {
                        config_setting: Some(ConfigSettings { entries: cs }),
                        ..acc
                    },
                ),
                Err(e) => Err(e),
            },
            _ => Err(SchemaError::WrongType(k.clone())),
        }
    } else if str_eq(k.as_str(), "python-version") {
        match v {
            TomlValue::Text(s) => if check_version_text(s.as_str()) {
                Ok(
                    ResolverOptions {
                        python_version: Some(PythonVersion { text: s.clone() }),
                        ..acc
                    },
                )
            } else {
                Err(SchemaError::InvalidValue(k.clone()))
            },
            _ => Err(SchemaError::WrongType(k.clone())),
        }
    } else if str_eq(k.as_str(), "exclude-newer") {
        match v {
            TomlValue::Text(s) => match parse_rfc3339(s.as_str()) {
                Some(t) => Ok(
                    ResolverOptions {
                        exclude_newer: Some(Timestamp { seconds: t.0, nanos: t.1 }),
                        ..acc
                    },
                ),
                None => Err(SchemaError::InvalidValue(k.clone())),
            },
            _ => Err(SchemaError::WrongType(k.clone())),
        }
    } else if str_eq(k.as_str(), "no-emit-package") {
        match v {
            TomlValue::Arr(items) => match name_list_from(items, k, 0, Vec::new()) {
                Ok(ns) => Ok(ResolverOptions { no_emit_package: Some(ns), ..acc }),
                Err(e) => Err(e),
            },
            _ => Err(SchemaError::WrongType(k.clone())),
        }
    } else if str_eq(k.as_str(), "emit-index-url") {
        match v {
            TomlValue::Bool(b) => Ok(ResolverOptions { emit_index_url: Some(*b), ..acc }),
            _ => Err(SchemaError::WrongType(k.clone())),
        }
    } else if str_eq(k.as_str(), "emit-find-links") {
        match v {
            TomlValue::Bool(b) => Ok(ResolverOptions { emit_find_links: Some(*b), ..acc }),
            _ => Err(SchemaError::WrongType(k.clone())),
        }
    } else if str_eq(k.as_str(), "annotation-style") {
        match v {
            TomlValue::Text(s) => match parse_annotation_style_token(s.as_str()) {
                Some(m) => Ok(ResolverOptions { annotation_style: Some(m), ..acc }),
                None => Err(SchemaError::InvalidValue(k.clone())),
            },
            _ => Err(SchemaError::WrongType(k.clone())),
        }
    } else {
        Err(SchemaError::UnknownField(k.clone()))
    }
}

fn resolver_fold(es: &Vec<(String, TomlValue)>, i: usize, acc: ResolverOptions) -> (r: Result<
    ResolverOptions,
    SchemaError,
>)
    requires
        i <= es.len(),
    ensures
        match r {
            Ok(a2) => spec_resolver_fold(es@, i as int, acc@) == Ok::<
                ResolverOptionsV,
                SchemaError,
            >(a2@),
            Err(e) => spec_resolver_fold(es@, i as int, acc@) == Err::<
                ResolverOptionsV,
                SchemaError,
            >(e),
        },
    decreases es.len() - i,
{
    if i == es.len() {
        Ok(acc)
    } else {
        let p = &es[i];
        match resolver_apply(acc, &p.0, &p.1) {
            Ok(a2) => resolver_fold(es, i + 1, a2),
            Err(e) => Err(e),
        }
    }
}

/// Parses a value as the resolver tier.
pub fn parse_resolver(k: &String, v: &TomlValue) -> (r: Result<ResolverOptions, SchemaError>)
    ensures
        match r {
            Ok(o) => spec_parse_resolver(*k, *v) == Ok::<ResolverOptionsV, SchemaError>(o@),
            Err(e) => spec_parse_resolver(*k, *v) == Err::<ResolverOptionsV, SchemaError>(e),
        },
{
    match v {
        TomlValue::Table(es) => resolver_fold(es, 0, ResolverOptions::default()),
        _ => Err(SchemaError::WrongType(k.clone())),
    }
}

// ---------------------------------------------------------------------------
// The pip-compatibility tier.
// ---------------------------------------------------------------------------

/// Whether the pip tier recognizes a field name.
pub open spec fn pip_key_known(k: Seq<char>) -> bool {
    ||| k == "system"@
    ||| k == "offline"@
    ||| k == "index-url"@
    ||| k == "extra-index-url"@
    ||| k == "no-index"@
    ||| k == "find-links"@
    ||| k == "index-strategy"@
    ||| k == "keyring-provider"@
    ||| k == "no-build"@
    ||| k == "no-binary"@
    ||| k == "only-binary"@
    ||| k == "no-build-isolation"@
    ||| k == "resolver"@
    ||| k == "installer"@
}

/// One field of the pip tier applied to the accumulated group.
pub open spec fn spec_pip_step(acc: PipOptionsV, k: String, v: TomlValue) -> Result<
    PipOptionsV,
    SchemaError,
> {
    if k@ == "system"@ {
        match v {
            TomlValue::Bool(b) => Ok(PipOptionsV { system: Some(b), ..acc }),
            _ => Err(SchemaError::WrongType(k)),
        }
    } else if k@ == "offline"@ {
        match v {
            TomlValue::Bool(b) => Ok(PipOptionsV { offline: Some(b), ..acc }),
            _ => Err(SchemaError::WrongType(k)),
        }
    } else if k@ == "index-url"@ {
        match v {
            TomlValue::Text(s) => if url_text_ok(s@) {
                Ok(PipOptionsV { index_url: Some(IndexUrl { text: s }), ..acc })
            } else {
                Err(SchemaError::InvalidValue(k))
            },
            _ => Err(SchemaError::WrongType(k)),
        }
    } else if k@ == "extra-index-url"@ {
        match v {
            TomlValue::Text(s) => if url_text_ok(s@) {
                Ok(PipOptionsV { extra_index_url: Some(IndexUrl { text: s }), ..acc })
            } else {
                Err(SchemaError::InvalidValue(k))
            },
            _ => Err(SchemaError::WrongType(k)),
        }
    } else if k@ == "no-index"@ {
        match v {
            TomlValue::Bool(b) => Ok(PipOptionsV { no_index: Some(b), ..acc }),
            _ => Err(SchemaError::WrongType(k)),
        }
    } else if k@ == "find-links"@ {
        match v {
            TomlValue::Arr(items) => match spec_location_list(items@, k, 0, Seq::empty()) {
                Ok(ls) => Ok(PipOptionsV { find_links: Some(ls), ..acc }),
                Err(e) => Err(e),
            },
            _ => Err(SchemaError::WrongType(k)),
        }
    } else if k@ == "index-strategy"@ {
        match v {
            TomlValue::Text(s) => match index_strategy_token(s@) {
                Some(m) => Ok(PipOptionsV { index_strategy: Some(m), ..acc }),
                None => Err(SchemaError::InvalidValue(k)),
            },
            _ => Err(SchemaError::WrongType(k)),
        }
    } else if k@ == "keyring-provider"@ {
        match v {
            TomlValue::Text(s) => match keyring_provider_token(s@) {
                Some(m) => Ok(PipOptionsV { keyring_provider: Some(m), ..acc }),
                None => Err(SchemaError::InvalidValue(k)),
            },
            _ => Err(SchemaError::WrongType(k)),
        }
    } else if k@ == "no-build"@ {
        match v {
            TomlValue::Bool(b) => Ok(PipOptionsV { no_build: Some(b), ..acc }),
            _ => Err(SchemaError::WrongType(k)),
        }
    } else if k@ == "no-binary"@ {
        match v {
            TomlValue::Arr(items) => match spec_specifier_list(items@, k, 0, Seq::empty()) {
                Ok(ss) => Ok(PipOptionsV { no_binary: Some(ss), ..acc }),
                Err(e) => Err(e),
            },
            _ => Err(SchemaError::WrongType(k)),
        }
    } else if k@ == "only-binary"@ {
        match v {
            TomlValue::Arr(items) => match spec_specifier_list(items@, k, 0, Seq::empty()) {
                Ok(ss) => Ok(PipOptionsV { only_binary: Some(ss), ..acc }),
                Err(e) => Err(e),
            },
            _ => Err(SchemaError::WrongType(k)),
        }
    } else if k@ == "no-build-isolation"@ {
        match v {
            TomlValue::Bool(b) => Ok(PipOptionsV { no_build_isolation: Some(b), ..acc }),
            _ => Err(SchemaError::WrongType(k)),
        }
    } else if k@ == "resolver"@ {
        match spec_parse_resolver(k, v) {
            Ok(ro) => Ok(PipOptionsV { resolver: Some(ro), ..acc }),
            Err(e) => Err(e),
        }
    } else if k@ == "installer"@ {
        match spec_parse_installer(k, v) {
            Ok(io) => Ok(PipOptionsV { installer: Some(io), ..acc }),
            Err(e) => Err(e),
        }
    } else {
        Err(SchemaError::UnknownField(k))
    }
}

/// The pip tier's entries folded in order, stopping at the first violation.
pub open spec fn spec_pip_fold(es: Seq<(String, TomlValue)>, i: int, acc: PipOptionsV) -> Result<
    PipOptionsV,
    SchemaError,
>
    decreases es.len() - i,
{
    if i < 0 || i >= es.len() {
        Ok(acc)
    } else {
        match spec_pip_step(acc, es[i].0, es[i].1) {
            Ok(a2) => spec_pip_fold(es, i + 1, a2),
            Err(e) => Err(e),
        }
    }
}

/// The pip group a value denotes: it must be a table of recognized pip
/// fields.
pub open spec fn spec_parse_pip(k: String, v: TomlValue) -> Result<PipOptionsV, SchemaError> {
    match v {
        TomlValue::Table(es) => spec_pip_fold(es@, 0, pip_v_empty()),
        _ => Err(SchemaError::WrongType(k)),
    }
}

fn pip_apply(acc: PipOptions, k: &String, v: &TomlValue) -> (r: Result<PipOptions, SchemaError>)
    ensures
        match r {
            Ok(a2) => spec_pip_step(acc@, *k, *v) == Ok::<PipOptionsV, SchemaError>(a2@),
            Err(e) => spec_pip_step(acc@, *k, *v) == Err::<PipOptionsV, SchemaError>(e),
        },
{
    if str_eq(k.as_str(), "system") {
        match v {
            TomlValue::Bool(b) => Ok(PipOptions { system: Some(*b), ..acc }),
            _ => Err(SchemaError::WrongType(k.clone())),
        }
    } else if str_eq(k.as_str(), "offline") {
        match v {
            TomlValue::Bool(b) => Ok(PipOptions { offline: Some(*b), ..acc }),
            _ => Err(SchemaError::WrongType(k.clone())),
        }
    } else if str_eq(k.as_str(), "index-url") {
        match v {
            TomlValue::Text(s) => if check_url_text(s.as_str()) {
                Ok(PipOptions { index_url: Some(IndexUrl { text: s.clone() }), ..acc })
            } else {
                Err(SchemaError::InvalidValue(k.clone()))
            },
            _ => Err(SchemaError::WrongType(k.clone())),
        }
    } else if str_eq(k.as_str(), "extra-index-url") {
        match v {
            TomlValue::Text(s) => if check_url_text(s.as_str()) {
                Ok(PipOptions { extra_index_url: Some(IndexUrl { text: s.clone() }), ..acc })
            } else {
                Err(SchemaError::InvalidValue(k.clone()))
            },
            _ => Err(SchemaError::WrongType(k.clone())),
        }
    } else if str_eq(k.as_str(), "no-index") {
        match v {
            TomlValue::Bool(b) => Ok(PipOptions { no_index: Some(*b), ..acc }),
            _ => Err(SchemaError::WrongType(k.clone())),
        }
    } else if str_eq(k.as_str(), "find-links") {
        match v {
            TomlValue::Arr(items) => match location_list_from(items, k, 0, Vec::new()) {
                Ok(ls) => Ok(PipOptions { find_links: Some(ls), ..acc }),
                Err(e) => Err(e),
            },
            _ => Err(SchemaError::WrongType(k.clone())),
        }
    } else if str_eq(k.as_str(), "index-strategy") {
        match v {
            TomlValue::Text(s) => match parse_index_strategy_token(s.as_str()) {
                Some(m) => Ok(PipOptions { index_strategy: Some(m), ..acc }),
                None => Err(SchemaError::InvalidValue(k.clone())),
            },
            _ => Err(SchemaError::WrongType(k.clone())),
        }
    } else if str_eq(k.as_str(), "keyring-provider") {
        match v {
            TomlValue::Text(s) => match parse_keyring_provider_token(s.as_str()) {
                Some(m) => Ok(PipOptions { keyring_provider: Some(m), ..acc }),
                None => Err(SchemaError::InvalidValue(k.clone())),
            },
            _ => Err(SchemaError::WrongType(k.clone())),
        }
    } else if str_eq(k.as_str(), "no-build") {
        match v {
            TomlValue::Bool(b) => Ok(PipOptions { no_build: Some(*b), ..acc }),
            _ => Err(SchemaError::WrongType(k.clone())),
        }
    } else if str_eq(k.as_str(), "no-binary") {
        match v {
            TomlValue::Arr(items) => match specifier_list_from(items, k, 0, Vec::new()) {
                Ok(ss) => Ok(PipOptions { no_binary: Some(ss), ..acc }),
                Err(e) => Err(e),
            },
            _ => Err(SchemaError::WrongType(k.clone())),
        }
    } else if str_eq(k.as_str(), "only-binary") {
        match v {
            TomlValue::Arr(items) => match specifier_list_from(items, k, 0, Vec::new()) {
                Ok(ss) => Ok(PipOptions { only_binary: Some(ss), ..acc }),
                Err(e) => Err(e),
            },
            _ => Err(SchemaError::WrongType(k.clone())),
        }
    } else if str_eq(k.as_str(), "no-build-isolation") {
        match v {
            TomlValue::Bool(b) => Ok(PipOptions { no_build_isolation: Some(*b), ..acc }),
            _ => Err(SchemaError::WrongType(k.clone())),
        }
    } else if str_eq(k.as_str(), "resolver") {
        match parse_resolver(k, v) {
            Ok(ro) => Ok(PipOptions { resolver: Some(ro), ..acc }),
            Err(e) => Err(e),
        }
    } else if str_eq(k.as_str(), "installer") {
        match parse_installer(k, v) {
            Ok(io) => Ok(PipOptions { installer: Some(io), ..acc }),
            Err(e) => Err(e),
        }
    } else {
        Err(SchemaError::UnknownField(k.clone()))
    }
}

fn pip_fold(es: &Vec<(String, TomlValue)>, i: usize, acc: PipOptions) -> (r: Result<
    PipOptions,
    SchemaError,
>)
    requires
        i <= es.len(),
    ensures
        match r {
            Ok(a2) => spec_pip_fold(es@, i as int, acc@) == Ok::<PipOptionsV, SchemaError>(a2@),
            Err(e) => spec_pip_fold(es@, i as int, acc@) == Err::<PipOptionsV, SchemaError>(e),
        },
    decreases es.len() - i,
{
    if i == es.len() {
        Ok(acc)
    } else {
        let p = &es[i];
        match pip_apply(acc, &p.0, &p.1) {
            Ok(a2) => pip_fold(es, i + 1, a2),
            Err(e) => Err(e),
        }
    }
}

/// Parses a value as the pip-compatibility tier.
pub fn parse_pip(k: &String, v: &TomlValue) -> (r: Result<PipOptions, SchemaError>)
    ensures
        match r {
            Ok(o) => spec_parse_pip(*k, *v) == Ok::<PipOptionsV, SchemaError>(o@),
            Err(e) => spec_parse_pip(*k, *v) == Err::<PipOptionsV, SchemaError>(e),
        },
{
    match v {
        TomlValue::Table(es) => pip_fold(es, 0, PipOptions::default()),
        _ => Err(SchemaError::WrongType(k.clone())),
    }
}

// ---------------------------------------------------------------------------
// The global tier.
// ---------------------------------------------------------------------------

/// Whether the global tier recognizes a field name.
pub open spec fn root_key_known(k: Seq<char>) -> bool {
    ||| k == "quiet"@
    ||| k == "verbose"@
    ||| k == "native-tls"@
    ||| k == "pip"@
    ||| k == "resolver"@
    ||| k == "installer"@
}

/// One field of the global tier applied to the accumulated options.
pub open spec fn spec_options_step(acc: OptionsV, k: String, v: TomlValue) -> Result<
    OptionsV,
    SchemaError,
> {
    if k@ == "quiet"@ {
        match v {
            TomlValue::Bool(b) => Ok(OptionsV { quiet: Some(b), ..acc }),
            _ => Err(SchemaError::WrongType(k)),
        }
    } else if k@ == "verbose"@ {
        match v {
            TomlValue::Bool(b) => Ok(OptionsV { verbose: Some(b), ..acc }),
            _ => Err(SchemaError::WrongType(k)),
        }
    } else if k@ == "native-tls"@ {
        match v {
            TomlValue::Bool(b) => Ok(OptionsV { native_tls: Some(b), ..acc }),
            _ => Err(SchemaError::WrongType(k)),
        }
    } else if k@ == "pip"@ {
        match spec_parse_pip(k, v) {
            Ok(p) => Ok(OptionsV { pip: Some(p), ..acc }),
            Err(e) => Err(e),
        }
    } else if k@ == "resolver"@ {
        match spec_parse_resolver(k, v) {
            Ok(ro) => Ok(OptionsV { resolver: Some(ro), ..acc }),
            Err(e) => Err(e),
        }
    } else if k@ == "installer"@ {
        match spec_parse_installer(k, v) {
            Ok(io) => Ok(OptionsV { installer: Some(io), ..acc }),
            Err(e) => Err(e),
        }
    } else {
        Err(SchemaError::UnknownField(k))
    }
}

/// The global tier's entries folded in order, stopping at the first
/// violation.
pub open spec fn spec_options_fold(es: Seq<(String, TomlValue)>, i: int, acc: OptionsV) -> Result<
    OptionsV,
    SchemaError,
>
    decreases es.len() - i,
{
    if i < 0 || i >= es.len() {
        Ok(acc)
    } else {
        match spec_options_step(acc, es[i].0, es[i].1) {
            Ok(a2) => spec_options_fold(es, i + 1, a2),
            Err(e) => Err(e),
        }
    }
}

/// The option tree a document denotes: the document must be a table of
/// recognized global fields.
pub open spec fn spec_parse_options(v: TomlValue) -> Result<OptionsV, SchemaError> {
    match v {
        TomlValue::Table(es) => spec_options_fold(es@, 0, options_v_empty()),
        _ => Err(SchemaError::NotTable),
    }
}

fn options_apply(acc: Options, k: &String, v: &TomlValue) -> (r: Result<Options, SchemaError>)
    ensures
        match r {
            Ok(a2) => spec_options_step(acc@, *k, *v) == Ok::<OptionsV, SchemaError>(a2@),
            Err(e) => spec_options_step(acc@, *k, *v) == Err::<OptionsV, SchemaError>(e),
        },
{
    if str_eq(k.as_str(), "quiet") {
        match v {
            TomlValue::Bool(b) => Ok(Options { quiet: Some(*b), ..acc }),
            _ => Err(SchemaError::WrongType(k.clone())),
        }
    } else if str_eq(k.as_str(), "verbose") {
        match v {
            TomlValue::Bool(b) => Ok(Options { verbose: Some(*b), ..acc }),
            _ => Err(SchemaError::WrongType(k.clone())),
        }
    } else if str_eq(k.as_str(), "native-tls") {
        match v {
            TomlValue::Bool(b) => Ok(Options { native_tls: Some(*b), ..acc }),
            _ => Err(SchemaError::WrongType(k.clone())),
        }
    } else if str_eq(k.as_str(), "pip") {
        match parse_pip(k, v) {
            Ok(p) => Ok(Options { pip: Some(p), ..acc }),
            Err(e) => Err(e),
        }
    } else if str_eq(k.as_str(), "resolver") {
        match parse_resolver(k, v) {
            Ok(ro) => Ok(Options { resolver: Some(ro), ..acc }),
            Err(e) => Err(e),
        }
    } else if str_eq(k.as_str(), "installer") {
        match parse_installer(k, v) {
            Ok(io) => Ok(Options { installer: Some(io), ..acc }),
            Err(e) => Err(e),
        }
    } else {
        Err(SchemaError::UnknownField(k.clone()))
    }
}

fn options_fold(es: &Vec<(String, TomlValue)>, i: usize, acc: Options) -> (r: Result<
    Options,
    SchemaError,
>)
    requires
        i <= es.len(),
    ensures
        match r {
            Ok(a2) => spec_options_fold(es@, i as int, acc@) == Ok::<OptionsV, SchemaError>(a2@),
            Err(e) => spec_options_fold(es@, i as int, acc@) == Err::<OptionsV, SchemaError>(e),
        },
    decreases es.len() - i,
{
    if i == es.len() {
        Ok(acc)
    } else {
        let p = &es[i];
        match options_apply(acc, &p.0, &p.1) {
            Ok(a2) => options_fold(es, i + 1, a2),
            Err(e) => Err(e),
        }
    }
}

/// Parses a document value as the global option tier.
pub fn parse_options(v: &TomlValue) -> (r: Result<Options, SchemaError>)
    ensures
        match r {
            Ok(o) => spec_parse_options(*v) == Ok::<OptionsV, SchemaError>(o@),
            Err(e) => spec_parse_options(*v) == Err::<OptionsV, SchemaError>(e),
        },
{
    match v {
        TomlValue::Table(es) => options_fold(es, 0, Options::default()),
        _ => Err(SchemaError::NotTable),
    }
}

// ---------------------------------------------------------------------------
// Strictness of the schema: an unrecognized field name at any tier is a hard
// parse failure, never silently dropped.
// ---------------------------------------------------------------------------

proof fn lemma_strict_installer_fold(es: Seq<(String, TomlValue)>, j: int, acc: InstallerOptionsV, i: int)
    requires
        0 <= j <= i < es.len(),
        !installer_key_known(es[i].0@),
    ensures
        spec_installer_fold(es, j, acc) is Err,
    decreases i - j,
{
    if j < i {
        match spec_installer_step(acc, es[j].0, es[j].1) {
            Ok(a2) => lemma_strict_installer_fold(es, j + 1, a2, i),
            Err(e) => {},
        }
    }
}

/// Strict schema at the installer tier: a table holding an entry whose name
/// the installer tier does not recognize never parses.
pub proof fn lemma_strict_installer(k: String, v: TomlValue, i: int)
    requires
        v matches TomlValue::Table(es) && 0 <= i < es@.len() && !installer_key_known(es@[i].0@),
    ensures
        spec_parse_installer(k, v) is Err,
{
    lemma_strict_installer_fold(v->Table_0@, 0, installer_v_empty(), i);
}

proof fn lemma_strict_resolver_fold(es: Seq<(String, TomlValue)>, j: int, acc: ResolverOptionsV, i: int)
    requires
        0 <= j <= i < es.len(),
        !resolver_key_known(es[i].0@),
    ensures
        spec_resolver_fold(es, j, acc) is Err,
    decreases i - j,
{
    if j < i {
        match spec_resolver_step(acc, es[j].0, es[j].1) {
            Ok(a2) => lemma_strict_resolver_fold(es, j + 1, a2, i),
            Err(e) => {},
        }
    }
}

/// Strict schema at the resolver tier: a table holding an entry whose name
/// the resolver tier does not recognize never parses.
pub proof fn lemma_strict_resolver(k: String, v: TomlValue, i: int)
    requires
        v matches TomlValue::Table(es) && 0 <= i < es@.len() && !resolver_key_known(es@[i].0@),
    ensures
        spec_parse_resolver(k, v) is Err,
{
    lemma_strict_resolver_fold(v->Table_0@, 0, resolver_v_empty(), i);
}

proof fn lemma_strict_pip_fold(es: Seq<(String, TomlValue)>, j: int, acc: PipOptionsV, i: int)
    requires
        0 <= j <= i < es.len(),
        !pip_key_known(es[i].0@),
    ensures
        spec_pip_fold(es, j, acc) is Err,
    decreases i - j,
{
    if j < i {
        match spec_pip_step(acc, es[j].0, es[j].1) {
            Ok(a2) => lemma_strict_pip_fold(es, j + 1, a2, i),
            Err(e) => {},
        }
    }
}

/// Strict schema at the pip tier: a table holding an entry whose name the
/// pip tier does not recognize never parses.
pub proof fn lemma_strict_pip(k: String, v: TomlValue, i: int)
    requires
        v matches TomlValue::Table(es) && 0 <= i < es@.len() && !pip_key_known(es@[i].0@),
    ensures
        spec_parse_pip(k, v) is Err,
{
    lemma_strict_pip_fold(v->Table_0@, 0, pip_v_empty(), i);
}

proof fn lemma_strict_options_fold(es: Seq<(String, TomlValue)>, j: int, acc: OptionsV, i: int)
    requires
        0 <= j <= i < es.len(),
        !root_key_known(es[i].0@),
    ensures
        spec_options_fold(es, j, acc) is Err,
    decreases i - j,
{
    if j < i {
        match spec_options_step(acc, es[j].0, es[j].1) {
            Ok(a2) => lemma_strict_options_fold(es, j + 1, a2, i),
            Err(e) => {},
        }
    }
}

/// Strict schema at the global tier: a document holding an entry whose name
/// the global tier does not recognize never parses, whatever its recognized
/// entries hold.
pub proof fn lemma_strict_root(v: TomlValue, i: int)
    requires
        v matches TomlValue::Table(es) && 0 <= i < es@.len() && !root_key_known(es@[i].0@),
    ensures
        spec_parse_options(v) is Err,
{
    lemma_strict_options_fold(v->Table_0@, 0, options_v_empty(), i);
}

impl Options {
    /// Parses TOML text as the global option tier: the dedicated
    /// configuration file's entry point.
    pub fn from_toml_text(s: &str) -> (r: Result<Options, ParseError>)
        ensures
            match r {
                Ok(o) => toml_doc(s@) matches Some(d) && spec_parse_options(d) == Ok::<
                    OptionsV,
                    SchemaError,
                >(o@),
                Err(ParseError::Syntax(_)) => toml_doc(s@) is None,
                Err(ParseError::Schema(e)) => toml_doc(s@) matches Some(d) && spec_parse_options(d)
                    == Err::<OptionsV, SchemaError>(e),
            },
    {
        match parse_toml_text(s) {
            Ok(d) => match parse_options(&d) {
                Ok(o) => Ok(o),
                Err(e) => Err(ParseError::Schema(e)),
            },
            Err(m) => Err(ParseError::Syntax(m)),
        }
    }
}

} // verus!
