//! Toolchain resolution: from the two configuration values of an LLVM/Clang
//! installation to the linker directives that the build step emits.
use vstd::prelude::*;

use crate::paths::{parent_directory, parent_of};

verus! {

/// The two required configuration values.
#[derive(Clone, Copy, Debug, PartialEq, Eq, Structural)]
pub enum ConfigVar {
    /// The root of the versioned LLVM installation.
    LlvmPrefix,
    /// The directory that holds the Clang shared library.
    LibclangPath,
}

impl ConfigVar {
    /// The name under which the value is configured.
    pub open spec fn spec_name(self) -> Seq<char> {
        match self {
            ConfigVar::LlvmPrefix => "LLVM_SYS_120_PREFIX"@,
            ConfigVar::LibclangPath => "LIBCLANG_PATH"@,
        }
    }

    /// The name under which the value is configured.
    pub fn variable_name(&self) -> (r: &'static str)
        ensures
            r@ == self.spec_name(),
    {
        match self {
            ConfigVar::LlvmPrefix => "LLVM_SYS_120_PREFIX",
            ConfigVar::LibclangPath => "LIBCLANG_PATH",
        }
    }
}

/// The configuration handed to the resolver; `None` is an absent value.
#[derive(Clone, Debug)]
pub struct ToolchainConfig {
    pub llvm_prefix: Option<String>,
    pub libclang_path: Option<String>,
}

/// A located toolchain.
#[derive(Clone, Debug)]
pub struct ToolchainLocation {
    pub library_version: String,
    pub library_directory: String,
    pub frontend_library_directory: String,
}

/// A located toolchain, as text.
pub struct LocationModel {
    pub library_version: Seq<char>,
    pub library_directory: Seq<char>,
    pub frontend_library_directory: Seq<char>,
}

impl View for ToolchainLocation {
    type V = LocationModel;

    open spec fn view(&self) -> LocationModel {
        LocationModel {
            library_version: self.library_version@,
            library_directory: self.library_directory@,
            frontend_library_directory: self.frontend_library_directory@,
        }
    }
}

/// Why the toolchain could not be resolved.
#[derive(Clone, Debug)]
pub enum ResolveError {
    /// A required configuration value is absent or empty.
    ConfigurationMissing(ConfigVar),
    /// A path does not name an existing directory, or has no parent.
    ToolchainNotFound(String),
}

/// A resolution error, as text.
pub enum ResolveFailure {
    Missing(ConfigVar),
    NotFound(Seq<char>),
}

impl View for ResolveError {
    type V = ResolveFailure;

    open spec fn view(&self) -> ResolveFailure {
        match self {
            ResolveError::ConfigurationMissing(v) => ResolveFailure::Missing(*v),
            ResolveError::ToolchainNotFound(p) => ResolveFailure::NotFound(p@),
        }
    }
}

/// The major version of LLVM that is linked.
pub open spec fn llvm_version() -> Seq<char> {
    "12"@
}

/// A configuration value is present when it is set and not empty.
pub open spec fn present(v: Option<String>) -> bool {
    v is Some && v->0@.len() > 0
}

/// The LLVM library directory below an installation root.
pub open spec fn library_directory_of(prefix: Seq<char>) -> Seq<char> {
    prefix + "/lib"@
}

/// What resolution gives, where the two flags say whether the LLVM library
/// directory and the Clang library directory exist.
pub open spec fn resolve_spec(c: ToolchainConfig, library_exists: bool, frontend_exists: bool)
    -> Result<LocationModel, ResolveFailure>
{
    if !present(c.llvm_prefix) {
        Err(ResolveFailure::Missing(ConfigVar::LlvmPrefix))
    } else if !present(c.libclang_path) {
        Err(ResolveFailure::Missing(ConfigVar::LibclangPath))
    } else if !library_exists {
        Err(ResolveFailure::NotFound(library_directory_of(c.llvm_prefix->0@)))
    } else if !frontend_exists {
        Err(ResolveFailure::NotFound(c.libclang_path->0@))
    } else {
        Ok(
            LocationModel {
                library_version: llvm_version(),
                library_directory: library_directory_of(c.llvm_prefix->0@),
                frontend_library_directory: c.libclang_path->0@,
            },
        )
    }
}

/// The same result, with the exec error read through its view.
pub open spec fn resolved_as(
    r: Result<ToolchainLocation, ResolveError>,
    s: Result<LocationModel, ResolveFailure>,
) -> bool {
    match r {
        Ok(l) => s == Ok::<LocationModel, ResolveFailure>(l@),
        Err(e) => s == Err::<LocationModel, ResolveFailure>(e@),
    }
}

/// The LLVM library directory below the installation root `prefix`.
pub fn library_directory(prefix: &str) -> (r: String)
    ensures
        r@ == library_directory_of(prefix@),
{
    let mut r = String::from_str(prefix);
    r.append("/lib");
    r
}

/// The two directories whose existence resolution depends on: the LLVM
/// library directory and the Clang library directory. Fails where a value
/// is missing, as resolution does.
pub fn candidate_directories(config: &ToolchainConfig) -> (r: Result<(String, String), ResolveError>)
    ensures
        match r {
            Ok((lib, frontend)) => {
                &&& present(config.llvm_prefix)
                &&& present(config.libclang_path)
                &&& lib@ == library_directory_of(config.llvm_prefix->0@)
                &&& frontend@ == config.libclang_path->0@
            },
            Err(e) => {
                &&& !(present(config.llvm_prefix) && present(config.libclang_path))
                &&& resolve_spec(*config, false, false) == Err::<LocationModel, ResolveFailure>(e@)
            },
        },
{
    let prefix = match &config.llvm_prefix {
        Some(p) => p,
        None => return Err(ResolveError::ConfigurationMissing(ConfigVar::LlvmPrefix)),
    };
    if prefix.as_str().unicode_len() == 0 {
        return Err(ResolveError::ConfigurationMissing(ConfigVar::LlvmPrefix));
    }
    let frontend = match &config.libclang_path {
        Some(f) => f,
        None => return Err(ResolveError::ConfigurationMissing(ConfigVar::LibclangPath)),
    };
    if frontend.as_str().unicode_len() == 0 {
        return Err(ResolveError::ConfigurationMissing(ConfigVar::LibclangPath));
    }
    Ok((library_directory(prefix.as_str()), frontend.clone()))
}

/// Resolves the toolchain from `config`, where `library_exists` and
/// `frontend_exists` say whether the LLVM library directory and the Clang
/// library directory (see `candidate_directories`) exist.
pub fn resolve(config: &ToolchainConfig, library_exists: bool, frontend_exists: bool) -> (r: Result<
    ToolchainLocation,
    ResolveError,
>)
    ensures
        resolved_as(r, resolve_spec(*config, library_exists, frontend_exists)),
{
    let (lib, frontend) = match candidate_directories(config) {
        Ok(dirs) => dirs,
        Err(e) => return Err(e),
    };
    if !library_exists {
        return Err(ResolveError::ToolchainNotFound(lib));
    }
    if !frontend_exists {
        return Err(ResolveError::ToolchainNotFound(frontend));
    }
    Ok(
        ToolchainLocation {
            library_version: String::from_str("12"),
            library_directory: lib,
            frontend_library_directory: frontend,
        },
    )
}

/// One instruction to the native linker.
#[derive(Clone, Debug)]
pub enum LinkDirective {
    /// A directory in which the linker searches for native libraries.
    SearchPath(String),
    /// A native library to link, by name.
    LinkLibrary(String),
}

/// A link directive, as text.
pub enum DirectiveModel {
    SearchPath(Seq<char>),
    LinkLibrary(Seq<char>),
}

impl View for LinkDirective {
    type V = DirectiveModel;

    open spec fn view(&self) -> DirectiveModel {
        match self {
            LinkDirective::SearchPath(p) => DirectiveModel::SearchPath(p@),
            LinkDirective::LinkLibrary(n) => DirectiveModel::LinkLibrary(n@),
        }
    }
}

/// The model of each directive.
pub open spec fn directives_view(ds: Seq<LinkDirective>) -> Seq<DirectiveModel> {
    ds.map_values(|d: LinkDirective| d@)
}

/// The directives for a located toolchain, in order: the two search paths,
/// then the versioned LLVM library and the Clang library.
pub open spec fn link_directives_of(l: LocationModel) -> Seq<DirectiveModel> {
    seq![
        DirectiveModel::SearchPath(l.library_directory),
        DirectiveModel::SearchPath(l.frontend_library_directory),
        DirectiveModel::LinkLibrary("LLVM-"@ + l.library_version),
        DirectiveModel::LinkLibrary("clang"@),
    ]
}

/// The link directives for `location`.
pub fn emit_link_directives(location: &ToolchainLocation) -> (r: Vec<LinkDirective>)
    ensures
        directives_view(r@) == link_directives_of(location@),
{
    let mut llvm = String::from_str("LLVM-");
    llvm.append(location.library_version.as_str());
    let mut r: Vec<LinkDirective> = Vec::new();
    r.push(LinkDirective::SearchPath(location.library_directory.clone()));
    r.push(LinkDirective::SearchPath(location.frontend_library_directory.clone()));
    r.push(LinkDirective::LinkLibrary(llvm));
    r.push(LinkDirective::LinkLibrary(String::from_str("clang")));
    assert(directives_view(r@) =~= link_directives_of(location@));
    r
}

/// The include-path hint: the parent of the Clang library directory.
pub open spec fn include_path_spec(frontend: Seq<char>) -> Result<Seq<char>, ResolveFailure> {
    match parent_of(frontend) {
        Some(p) => Ok(p),
        None => Err(ResolveFailure::NotFound(frontend)),
    }
}

/// The include-path hint for the Clang library directory `frontend`.
pub fn emit_include_path(frontend: &str) -> (r: Result<String, ResolveError>)
    ensures
        match r {
            Ok(p) => include_path_spec(frontend@) == Ok::<Seq<char>, ResolveFailure>(p@),
            Err(e) => include_path_spec(frontend@) == Err::<Seq<char>, ResolveFailure>(e@),
        },
{
    match parent_directory(frontend) {
        Some(p) => Ok(p),
        None => Err(ResolveError::ToolchainNotFound(String::from_str(frontend))),
    }
}

/// The text by which the build step hands a directive to the linker.
pub open spec fn directive_line_of(d: DirectiveModel) -> Seq<char> {
    match d {
        DirectiveModel::SearchPath(p) => "cargo:rustc-link-search=native="@ + p,
        DirectiveModel::LinkLibrary(n) => "cargo:rustc-link-lib="@ + n,
    }
}

/// The text line of the directive `d`.
pub fn directive_line(d: &LinkDirective) -> (r: String)
    ensures
        r@ == directive_line_of(d@),
{
    match d {
        LinkDirective::SearchPath(p) => {
            let mut r = String::from_str("cargo:rustc-link-search=native=");
            r.append(p.as_str());
            r
        },
        LinkDirective::LinkLibrary(n) => {
            let mut r = String::from_str("cargo:rustc-link-lib=");
            r.append(n.as_str());
            r
        },
    }
}

/// The text line of the include-path hint `p`.
pub open spec fn include_line_of(p: Seq<char>) -> Seq<char> {
    "cargo:include="@ + p
}

/// The line that has the build re-run the resolver when its source changes.
pub open spec fn rerun_line() -> Seq<char> {
    "cargo:rerun-if-changed=build.rs"@
}

/// The line that has the build re-run the resolver when its source changes.
pub fn rerun_directive() -> (r: String)
    ensures
        r@ == rerun_line(),
{
    String::from_str("cargo:rerun-if-changed=build.rs")
}

/// The text lines of a sequence of directives.
pub open spec fn directive_lines_of(ds: Seq<DirectiveModel>) -> Seq<Seq<char>> {
    ds.map_values(|d: DirectiveModel| directive_line_of(d))
}

/// The text of each string.
pub open spec fn strings_view(v: Seq<String>) -> Seq<Seq<char>> {
    v.map_values(|s: String| s@)
}

/// What the build step emits after the rerun line: the four directive lines,
/// then the include-path hint; or the error that stops the build.
pub open spec fn build_lines_spec(c: ToolchainConfig, library_exists: bool, frontend_exists: bool)
    -> Result<Seq<Seq<char>>, ResolveFailure>
{
    match resolve_spec(c, library_exists, frontend_exists) {
        Err(e) => Err(e),
        Ok(l) => match include_path_spec(l.frontend_library_directory) {
            Err(e) => Err(e),
            Ok(inc) => Ok(
                directive_lines_of(link_directives_of(l)).push(
                    include_line_of(inc),
                ),
            ),
        },
    }
}

/// Resolves the toolchain and gives the lines that the build step emits
/// after the rerun line. Nothing is given where resolution fails.
pub fn build_script_lines(config: &ToolchainConfig, library_exists: bool, frontend_exists: bool)
    -> (r: Result<Vec<String>, ResolveError>)
    ensures
        match r {
            Ok(lines) => build_lines_spec(*config, library_exists, frontend_exists) == Ok::<
                Seq<Seq<char>>,
                ResolveFailure,
            >(strings_view(lines@)),
            Err(e) => build_lines_spec(*config, library_exists, frontend_exists) == Err::<
                Seq<Seq<char>>,
                ResolveFailure,
            >(e@),
        },
{
    let location = match resolve(config, library_exists, frontend_exists) {
        Ok(l) => l,
        Err(e) => return Err(e),
    };
    let hint = match emit_include_path(location.frontend_library_directory.as_str()) {
        Ok(p) => p,
        Err(e) => return Err(e),
    };
    let directives = emit_link_directives(&location);
    let ghost dv = directives_view(directives@);
    let mut lines: Vec<String> = Vec::new();
    let mut i: usize = 0;
    while i < directives.len()
        invariant
            i <= directives@.len(),
            lines@.len() == i,
            dv == directives_view(directives@),
            dv.len() == directives@.len(),
            strings_view(lines@) == directive_lines_of(dv.subrange(0, i as int)),
        decreases directives@.len() - i,
    {
        let line = directive_line(&directives[i]);
        assert(dv[i as int] == directives@[i as int]@);
        let ghost prev = lines@;
        lines.push(line);
        assert forall|j: int| 0 <= j < i + 1 implies strings_view(lines@)[j]
            == directive_lines_of(dv.subrange(0, i + 1))[j] by {
            if j < i {
                assert(lines@[j] == prev[j]);
                assert(strings_view(prev)[j] == directive_lines_of(dv.subrange(0, i as int))[j]);
            }
        }
        assert(strings_view(lines@) =~= directive_lines_of(dv.subrange(0, i + 1)));
        i = i + 1;
    }
    let mut inc_line = String::from_str("cargo:include=");
    inc_line.append(hint.as_str());
    lines.push(inc_line);
    assert(dv.subrange(0, i as int) =~= dv);
    assert(strings_view(lines@) =~= directive_lines_of(link_directives_of(location@)).push(include_line_of(hint@)));
    Ok(lines)
}

/// With both values present and both directories existing, resolution
/// succeeds, and the location yields exactly four directives: the LLVM
/// library search path, the Clang library search path, the versioned LLVM
/// library, and the Clang library, in that order.
pub proof fn existing_toolchain_resolves(config: ToolchainConfig)
    requires
        present(config.llvm_prefix),
        present(config.libclang_path),
    ensures
        resolve_spec(config, true, true) is Ok,
        ({
            let l = resolve_spec(config, true, true)->Ok_0;
            let ds = link_directives_of(l);
            &&& l.library_directory == library_directory_of(config.llvm_prefix->0@)
            &&& l.frontend_library_directory == config.libclang_path->0@
            &&& ds.len() == 4
            &&& ds[0] == DirectiveModel::SearchPath(l.library_directory)
            &&& ds[1] == DirectiveModel::SearchPath(l.frontend_library_directory)
            &&& ds[2] == DirectiveModel::LinkLibrary("LLVM-"@ + llvm_version())
            &&& ds[3] == DirectiveModel::LinkLibrary("clang"@)
        }),
{
}

/// Where a required value is absent, resolution fails naming the first
/// absent value, and the build emits no directive.
pub proof fn missing_value_is_reported(config: ToolchainConfig, library_exists: bool, frontend_exists: bool)
    requires
        !present(config.llvm_prefix) || !present(config.libclang_path),
    ensures
        resolve_spec(config, library_exists, frontend_exists) == Err::<LocationModel, ResolveFailure>(
            ResolveFailure::Missing(
                if !present(config.llvm_prefix) {
                    ConfigVar::LlvmPrefix
                } else {
                    ConfigVar::LibclangPath
                },
            ),
        ),
        build_lines_spec(config, library_exists, frontend_exists) is Err,
{
}

/// Where both values are present but a directory does not exist, resolution
/// fails naming that directory (the LLVM library directory first).
pub proof fn missing_directory_is_reported(config: ToolchainConfig, library_exists: bool, frontend_exists: bool)
    requires
        present(config.llvm_prefix),
        present(config.libclang_path),
        !library_exists || !frontend_exists,
    ensures
        resolve_spec(config, library_exists, frontend_exists) == Err::<LocationModel, ResolveFailure>(
            ResolveFailure::NotFound(
                if !library_exists {
                    library_directory_of(config.llvm_prefix->0@)
                } else {
                    config.libclang_path->0@
                },
            ),
        ),
        build_lines_spec(config, library_exists, frontend_exists) is Err,
{
}

} // verus!
