//! Resolution of the asset root directory: choosing a base path from what
//! the host environment reports, and joining the configured asset directory
//! onto it.
//!
//! Reading the environment and touching the filesystem are the host's
//! business; this module only decides, from the reported values, which
//! directory the asset readers and writers are rooted at.

use vstd::prelude::*;

verus! {

/// What the host environment reports for locating assets: an explicit asset
/// root if one is configured, the build-time manifest directory if the
/// process runs under the build tool, and the executable's parent directory
/// as the last resort.
pub struct EnvironmentPaths {
    /// An explicitly configured asset root directory, if any.
    pub asset_root: Option<String>,
    /// The build-time manifest directory, if the environment carries one.
    pub manifest_dir: Option<String>,
    /// The directory the running executable sits in.
    pub exe_parent_dir: String,
}

/// The base path chosen from the environment: the explicit asset root when
/// configured, else the manifest directory when present, else the
/// executable's parent directory.
pub open spec fn base_path_spec(env: EnvironmentPaths) -> Seq<char> {
    match env.asset_root {
        Option::Some(root) => root@,
        Option::None => match env.manifest_dir {
            Option::Some(dir) => dir@,
            Option::None => env.exe_parent_dir@,
        },
    }
}

/// A path joined onto a base directory: an absolute path (one starting with
/// `/`) replaces the base; otherwise the two are concatenated, with exactly
/// one separator between them.
pub open spec fn joined_path_spec(base: Seq<char>, path: Seq<char>) -> Seq<char> {
    if path.len() > 0 && path[0] == '/' {
        path
    } else if base.len() > 0 && base[base.len() - 1] == '/' {
        base + path
    } else {
        base + seq!['/'] + path
    }
}

/// Joins `path` onto the directory `base`; see [`joined_path_spec`].
fn join_path(base: &str, path: &str) -> (r: String)
    ensures
        r@ == joined_path_spec(base@, path@),
{
    let path_len = path.unicode_len();
    if path_len > 0 && path.get_char(0) == '/' {
        return path.to_owned();
    }
    let mut out = base.to_owned();
    let base_len = base.unicode_len();
    let base_ends_in_separator = base_len > 0 && base.get_char(base_len - 1) == '/';
    if !base_ends_in_separator {
        out.append("/");
        proof {
            reveal_strlit("/");
            assert("/"@ =~= seq!['/']);
        }
    }
    out.append(path);
    out
}

/// Reads assets from a directory of the local filesystem, rooted at the
/// environment's base path joined with a configured asset directory.
pub struct FileAssetReader {
    root_path: String,
}

impl View for FileAssetReader {
    type V = Seq<char>;

    closed spec fn view(&self) -> Seq<char> {
        self.root_path@
    }
}

impl FileAssetReader {
    /// Creates a reader rooted at the base path joined with `path`.
    pub fn new(env: &EnvironmentPaths, path: &str) -> (r: Self)
        ensures
            r@ == joined_path_spec(base_path_spec(*env), path@),
    {
        let base = Self::get_base_path(env);
        let root_path = join_path(base.as_str(), path);
        FileAssetReader { root_path }
    }

    /// Returns the base path of the assets directory chosen from the
    /// environment: the explicit asset root when configured, else the
    /// manifest directory when present, else the executable's parent
    /// directory.
    pub fn get_base_path(env: &EnvironmentPaths) -> (r: String)
        ensures
            r@ == base_path_spec(*env),
    {
        match &env.asset_root {
            Some(root) => root.clone(),
            None => match &env.manifest_dir {
                Some(dir) => dir.clone(),
                None => env.exe_parent_dir.clone(),
            },
        }
    }

    /// Returns the root directory this reader loads assets from.
    pub fn root_path(&self) -> (r: &String)
        ensures
            r@ == self@,
    {
        &self.root_path
    }
}

/// Writes assets to a directory of the local filesystem, rooted like
/// [`FileAssetReader`]. Creating the root directory on disk is the host's
/// business.
pub struct FileAssetWriter {
    root_path: String,
}

impl View for FileAssetWriter {
    type V = Seq<char>;

    closed spec fn view(&self) -> Seq<char> {
        self.root_path@
    }
}

impl FileAssetWriter {
    /// Creates a writer rooted at the base path joined with `path`.
    pub fn new(env: &EnvironmentPaths, path: &str) -> (r: Self)
        ensures
            r@ == joined_path_spec(base_path_spec(*env), path@),
    {
        let base = FileAssetReader::get_base_path(env);
        let root_path = join_path(base.as_str(), path);
        FileAssetWriter { root_path }
    }

    /// Returns the root directory this writer stores assets under.
    pub fn root_path(&self) -> (r: &String)
        ensures
            r@ == self@,
    {
        &self.root_path
    }
}

} // verus!
