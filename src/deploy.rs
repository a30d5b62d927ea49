use crate::output::OutputFormat;
use crate::paths::{file_name_of, parent_of, path_file_name, path_parent};
use crate::tags::{opt_texts, texts};
use vstd::prelude::*;

verus! {

/// Why a deployment request is refused before any remote work.
#[derive(Clone, Debug, PartialEq, Eq)]
pub enum DeployError {
    /// `--enable-function-url` and `--disable-function-url` were both set.
    ConflictingFunctionUrl,
    /// The explicit binary path names a directory.
    InvalidFile(String),
    /// No name or no destination directory can be derived from the binary path.
    InvalidBinaryPath(String),
}

/// The options of one `deploy` invocation that this library decides on. Paths are
/// held as text.
#[derive(Clone, Debug)]
pub struct Deploy {
    /// Function option: create a function URL.
    pub enable_function_url: bool,
    /// Function option: remove the function URL.
    pub disable_function_url: bool,
    /// Directory where the lambda binaries are located.
    pub lambda_dir: Option<String>,
    /// Path to the project manifest.
    pub manifest_path: String,
    /// Name of the binary on disk, if it differs from the deployed name.
    pub binary_name: Option<String>,
    /// Explicit path of the binary to deploy.
    pub binary_path: Option<String>,
    /// S3 bucket to upload the code to.
    pub s3_bucket: Option<String>,
    /// Whether the code is a Lambda Extension.
    pub extension: bool,
    /// Whether an extension is internal.
    pub internal: bool,
    /// Runtimes the extension is compatible with.
    pub compatible_runtimes: Vec<String>,
    /// How the result is printed.
    pub output_format: OutputFormat,
    /// Repeated `key=value` tags.
    pub tag: Option<Vec<String>>,
    /// Comma separated `key=value` tags; wins over `tag` when given.
    pub tags: Option<Vec<String>>,
    /// Extra files and directories to put in the archive.
    pub extra_paths: Option<Vec<String>>,
    /// Name of the function or extension.
    pub name: Option<String>,
}

/// How the archive to deploy is obtained.
#[derive(Clone, Debug)]
pub enum ArchivePlan {
    /// Package the binary at an explicit path.
    Package {
        name: String,
        binary_path: String,
        destination: String,
        sublayout: Option<String>,
        extra_paths: Option<Vec<String>>,
    },
    /// Find the archive that the build left. With no `name`, the name is the
    /// manifest's primary binary.
    Discover {
        name: Option<String>,
        manifest_path: String,
        lambda_dir: Option<String>,
        extension: bool,
        internal: bool,
        extra_paths: Option<Vec<String>>,
    },
}

/// The text of a string, if it is given.
pub open spec fn opt_text(s: Option<String>) -> Option<Seq<char>> {
    match s {
        Some(t) => Some(t@),
        None => None,
    }
}

/// The name of a binary given by path: the explicit name, else the path's final
/// component.
pub open spec fn name_from_path(name: Option<String>, path: Seq<char>) -> Option<Seq<char>> {
    match name {
        Some(n) => Some(n@),
        None => file_name_of(path),
    }
}

/// The layout under which the binary is put in the archive: `extensions/` for an
/// external extension, none otherwise.
pub open spec fn sublayout_of(extension: bool, internal: bool) -> Option<Seq<char>> {
    if extension && !internal {
        Some("extensions"@)
    } else {
        None
    }
}

/// The name of the binary on disk for a deployed name.
pub open spec fn binary_name_of(binary_name: Option<String>, name: Seq<char>) -> Seq<char> {
    match binary_name {
        Some(b) => b@,
        None => name,
    }
}

/// The plan is to package the binary at `path`, under the given name, destination
/// and layout, with the given extra paths.
pub open spec fn is_package_plan(
    p: ArchivePlan,
    name: Seq<char>,
    path: Seq<char>,
    destination: Seq<char>,
    sublayout: Option<Seq<char>>,
    extra_paths: Option<Seq<Seq<char>>>,
) -> bool {
    match p {
        ArchivePlan::Package { name: n, binary_path: b, destination: d, sublayout: s, extra_paths: i } => {
            &&& n@ == name
            &&& b@ == path
            &&& d@ == destination
            &&& opt_text(s) == sublayout
            &&& opt_texts(i) == extra_paths
        },
        _ => false,
    }
}

/// The plan is to find the archive that the build left, with the request's name,
/// manifest, search directory, flags and extra paths.
pub open spec fn is_discover_plan(p: ArchivePlan, d: Deploy) -> bool {
    match p {
        ArchivePlan::Discover { name, manifest_path, lambda_dir, extension, internal, extra_paths } => {
            &&& opt_text(name) == opt_text(d.name)
            &&& manifest_path@ == d.manifest_path@
            &&& opt_text(lambda_dir) == opt_text(d.lambda_dir)
            &&& extension == d.extension
            &&& internal == d.internal
            &&& opt_texts(extra_paths) == opt_texts(d.extra_paths)
        },
        _ => false,
    }
}

pub(crate) fn clone_opt_text(s: &Option<String>) -> (r: Option<String>)
    ensures
        opt_text(r) == opt_text(*s),
{
    match s {
        Some(t) => Some(t.clone()),
        None => None,
    }
}

pub(crate) fn clone_list(v: &Vec<String>) -> (r: Vec<String>)
    ensures
        texts(r@) == texts(v@),
{
    let mut out: Vec<String> = Vec::new();
    let mut i: usize = 0;
    while i < v.len()
        invariant
            i <= v@.len(),
            texts(out@) == texts(v@.subrange(0, i as int)),
        decreases v@.len() - i,
    {
        let c = v[i].clone();
        let ghost prev = out@;
        out.push(c);
        proof {
            let pre = v@.subrange(0, i as int);
            let post = v@.subrange(0, i + 1);
            assert(post =~= pre.push(v@[i as int]));
            assert(texts(prev) =~= texts(pre));
            assert(texts(out@) =~= texts(prev).push(c@));
            assert(texts(post) =~= texts(pre).push(v@[i as int]@));
        }
        i = i + 1;
    }
    proof {
        assert(v@.subrange(0, i as int) =~= v@);
    }
    out
}

pub(crate) fn clone_opt_list(v: &Option<Vec<String>>) -> (r: Option<Vec<String>>)
    ensures
        opt_texts(r) == opt_texts(*v),
{
    match v {
        Some(l) => Some(clone_list(l)),
        None => None,
    }
}

/// What planning the archive gives for a request, where `is_dir` tells whether the
/// explicit binary path names a directory.
pub open spec fn plan_outcome(d: Deploy, is_dir: bool, r: Result<ArchivePlan, DeployError>) -> bool {
    match d.binary_path {
        Some(bp) => {
            if is_dir {
                r is Err && r->Err_0 == DeployError::InvalidFile(bp)
            } else if name_from_path(d.name, bp@) is None || parent_of(bp@) is None {
                r is Err && r->Err_0 == DeployError::InvalidBinaryPath(bp)
            } else {
                r is Ok && is_package_plan(
                    r->Ok_0,
                    name_from_path(d.name, bp@)->0,
                    bp@,
                    parent_of(bp@)->0,
                    sublayout_of(d.extension, d.internal),
                    opt_texts(d.extra_paths),
                )
            }
        },
        None => r is Ok && is_discover_plan(r->Ok_0, d),
    }
}

/// The name that a packaging plan deploys under.
pub open spec fn package_name(p: ArchivePlan) -> Option<Seq<char>> {
    match p {
        ArchivePlan::Package { name, .. } => Some(name@),
        _ => None,
    }
}

/// The layout that a packaging plan puts the binary under.
pub open spec fn package_sublayout(p: ArchivePlan) -> Option<Seq<char>> {
    match p {
        ArchivePlan::Package { sublayout, .. } => opt_text(sublayout),
        _ => None,
    }
}

/// An explicit binary path that names a directory is refused as an invalid file, and
/// no packaging is planned.
pub proof fn lemma_directory_refused(d: Deploy, r: Result<ArchivePlan, DeployError>)
    requires
        d.binary_path is Some,
        plan_outcome(d, true, r),
    ensures
        r is Err,
        r->Err_0 == DeployError::InvalidFile(d.binary_path->0),
{
}

/// When a binary path is packaged, an external extension goes under `extensions/`;
/// an internal extension, or a function, gets no sub-layout.
pub proof fn lemma_extension_layout(d: Deploy, r: Result<ArchivePlan, DeployError>)
    requires
        d.binary_path is Some,
        plan_outcome(d, false, r),
        r is Ok,
    ensures
        d.extension && !d.internal ==> package_sublayout(r->Ok_0) == Some("extensions"@),
        d.internal || !d.extension ==> package_sublayout(r->Ok_0) is None,
{
}

/// With no explicit name, the name derived from a binary path is that path's final
/// component: two requests with the same path plan the same name.
pub proof fn lemma_derived_name_stable(
    d1: Deploy,
    d2: Deploy,
    r1: Result<ArchivePlan, DeployError>,
    r2: Result<ArchivePlan, DeployError>,
)
    requires
        d1.name is None,
        d2.name is None,
        d1.binary_path is Some,
        d2.binary_path is Some,
        d1.binary_path->0@ == d2.binary_path->0@,
        plan_outcome(d1, false, r1),
        plan_outcome(d2, false, r2),
    ensures
        r1 is Ok <==> r2 is Ok,
        r1 is Ok ==> package_name(r1->Ok_0) == file_name_of(d1.binary_path->0@),
        r1 is Ok ==> package_name(r1->Ok_0) == package_name(r2->Ok_0),
{
}

/// A function deployed from an explicit binary path, with no explicit name, is
/// packaged under the path's final component, into the path's parent directory, with
/// no sub-layout.
pub proof fn lemma_function_from_path(d: Deploy, r: Result<ArchivePlan, DeployError>)
    requires
        d.binary_path is Some,
        d.name is None,
        !d.extension,
        file_name_of(d.binary_path->0@) is Some,
        parent_of(d.binary_path->0@) is Some,
        plan_outcome(d, false, r),
    ensures
        r is Ok,
        is_package_plan(
            r->Ok_0,
            file_name_of(d.binary_path->0@)->0,
            d.binary_path->0@,
            parent_of(d.binary_path->0@)->0,
            None,
            opt_texts(d.extra_paths),
        ),
{
}

impl Deploy {
    /// Refuses the request when both function-url options are set.
    pub fn validate(&self) -> (r: Result<(), DeployError>)
        ensures
            r is Err <==> (self.enable_function_url && self.disable_function_url),
            r is Err ==> r == Err::<(), DeployError>(DeployError::ConflictingFunctionUrl),
    {
        if self.enable_function_url && self.disable_function_url {
            Err(DeployError::ConflictingFunctionUrl)
        } else {
            Ok(())
        }
    }

    /// Decides how the archive is obtained. `path_is_dir` tells whether the explicit
    /// binary path, if any, names a directory.
    pub fn plan_archive(&self, path_is_dir: bool) -> (r: Result<ArchivePlan, DeployError>)
        ensures
            plan_outcome(*self, path_is_dir, r),
    {
        match &self.binary_path {
            Some(bp) => {
                if path_is_dir {
                    return Err(DeployError::InvalidFile(bp.clone()));
                }
                let name = match &self.name {
                    Some(n) => n.clone(),
                    None => match path_file_name(bp.as_str()) {
                        Some(n) => n,
                        None => {
                            return Err(DeployError::InvalidBinaryPath(bp.clone()));
                        },
                    },
                };
                let destination = match path_parent(bp.as_str()) {
                    Some(d) => d,
                    None => {
                        return Err(DeployError::InvalidBinaryPath(bp.clone()));
                    },
                };
                let sublayout = if self.extension && !self.internal {
                    Some("extensions".to_owned())
                } else {
                    None
                };
                Ok(
                    ArchivePlan::Package {
                        name,
                        binary_path: bp.clone(),
                        destination,
                        sublayout,
                        extra_paths: clone_opt_list(&self.extra_paths),
                    },
                )
            },
            None => Ok(
                ArchivePlan::Discover {
                    name: clone_opt_text(&self.name),
                    manifest_path: self.manifest_path.clone(),
                    lambda_dir: clone_opt_text(&self.lambda_dir),
                    extension: self.extension,
                    internal: self.internal,
                    extra_paths: clone_opt_list(&self.extra_paths),
                },
            ),
        }
    }

    /// The name of the binary on disk: the explicit binary name, else the deployed name.
    pub fn binary_name_for(&self, name: &String) -> (r: String)
        ensures
            r@ == binary_name_of(self.binary_name, name@),
    {
        match &self.binary_name {
            Some(b) => b.clone(),
            None => name.clone(),
        }
    }
}

} // verus!
