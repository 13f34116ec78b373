//! The decisions of npm package and local library bundling with esbuild:
//! the entry module of a package, the esbuild arguments, the cache keys and
//! the errors.
use vstd::prelude::*;

use md5::Digest;

use crate::text::push_str;

verus! {

/// A cache of bundled code, keyed by text; implemented by the library's
/// users.
pub trait BundleCache {
    /// The cached code under a key, if any.
    fn get(&self, key: &str) -> Option<String>;

    /// Stores code under a key.
    fn put(&self, key: &str, content: String);

    /// The key a package is cached under (its name, unless overridden).
    fn cache_key(&self, package_name: &str, node_modules_path: &str) -> (r: String)
        default_ensures
            r@ == package_name@,
    {
        package_name.to_owned()
    }
}

/// A cache that keeps nothing.
#[derive(Debug, Clone, Copy)]
pub struct NoCache;

impl BundleCache for NoCache {
    fn get(&self, key: &str) -> (r: Option<String>)
        ensures
            r is None,
    {
        None
    }

    fn put(&self, key: &str, content: String) {
    }
}

/// Output format of a bundle.
#[derive(Debug, Clone, Copy, PartialEq, Eq, Structural)]
pub enum BundleFormat {
    /// ES modules (for workerd)
    Esm,
    /// CommonJS
    Cjs,
}

/// Configuration for bundling.
#[derive(Debug, Clone)]
pub struct BundleConfig {
    /// Path to the esbuild binary
    pub esbuild_path: String,
    /// Path to the node_modules directory
    pub node_modules_path: String,
    /// Output format
    pub format: BundleFormat,
}

impl Default for BundleConfig {
    fn default() -> (r: Self)
        ensures
            r.esbuild_path@ == "esbuild"@,
            r.node_modules_path@ == "node_modules"@,
            r.format == BundleFormat::Esm,
    {
        BundleConfig {
            esbuild_path: "esbuild".to_owned(),
            node_modules_path: "node_modules".to_owned(),
            format: BundleFormat::Esm,
        }
    }
}

/// Errors of bundling.
#[derive(Debug)]
pub enum BundleError {
    /// An I/O operation failed
    Io(String),
    /// esbuild failed
    EsbuildFailed(String),
    /// The package was not found
    PackageNotFound(String),
    /// Type checking failed
    TypeCheckFailed(String),
}

/// The message of a bundling error, as the error type displays it.
pub open spec fn bundle_error_text(e: BundleError) -> Seq<char> {
    match e {
        BundleError::Io(s) => "IO error: "@ + s@,
        BundleError::EsbuildFailed(s) => "esbuild failed: "@ + s@,
        BundleError::PackageNotFound(s) => "Package not found: "@ + s@,
        BundleError::TypeCheckFailed(s) => "Type checking failed: "@ + s@,
    }
}

fn prefixed(prefix: &str, s: &String) -> (r: String)
    ensures
        r@ == prefix@ + s@,
{
    let mut r = prefix.to_owned();
    push_str(&mut r, s.as_str());
    r
}

impl BundleError {
    /// The message of the error.
    pub fn to_text(&self) -> (r: String)
        ensures
            r@ == bundle_error_text(*self),
    {
        match self {
            BundleError::Io(s) => prefixed("IO error: ", s),
            BundleError::EsbuildFailed(s) => prefixed("esbuild failed: ", s),
            BundleError::PackageNotFound(s) => prefixed("Package not found: ", s),
            BundleError::TypeCheckFailed(s) => prefixed("Type checking failed: ", s),
        }
    }
}

/// The entry module esbuild bundles for a package: it re-exports the
/// package's named exports and its default export.
pub open spec fn package_entry(package_name: Seq<char>) -> Seq<char> {
    "export * from '"@ + package_name + "';\nimport pkg from '"@ + package_name
        + "';\nexport default pkg;\n"@
}

/// Writes the entry module of a package.
pub fn package_entry_source(package_name: &str) -> (r: String)
    ensures
        r@ == package_entry(package_name@),
{
    let mut r = "export * from '".to_owned();
    push_str(&mut r, package_name);
    push_str(&mut r, "';\nimport pkg from '");
    push_str(&mut r, package_name);
    push_str(&mut r, "';\nexport default pkg;\n");
    r
}

/// The esbuild name of a format.
pub open spec fn format_name(format: BundleFormat) -> Seq<char> {
    match format {
        BundleFormat::Esm => "esm"@,
        BundleFormat::Cjs => "cjs"@,
    }
}

/// The arguments of an esbuild run: the entry, bundled, in the format, for
/// the browser platform, minified.
pub open spec fn esbuild_arguments(entry: Seq<char>, format: BundleFormat) -> Seq<Seq<char>> {
    seq![entry, "--bundle"@, "--format="@ + format_name(format), "--platform=browser"@, "--minify"@]
}

/// Builds the arguments of an esbuild run.
pub fn esbuild_args(entry: &str, format: BundleFormat) -> (r: Vec<String>)
    ensures
        r@.len() == 5,
        forall|i: int| 0 <= i < 5 ==> #[trigger] r@[i]@ == esbuild_arguments(entry@, format)[i],
{
    let mut f = "--format=".to_owned();
    match format {
        BundleFormat::Esm => push_str(&mut f, "esm"),
        BundleFormat::Cjs => push_str(&mut f, "cjs"),
    }
    let mut r: Vec<String> = Vec::new();
    r.push(entry.to_owned());
    r.push("--bundle".to_owned());
    r.push(f);
    r.push("--platform=browser".to_owned());
    r.push("--minify".to_owned());
    r
}

/// The error of an esbuild run that failed for a package or a library.
pub fn esbuild_failure(what: &str, name: &str, stderr: &str) -> (r: BundleError)
    ensures
        r matches BundleError::EsbuildFailed(m) && m@ == "esbuild failed for "@ + what@ + " '"@
            + name@ + "': "@ + stderr@,
{
    let mut m = "esbuild failed for ".to_owned();
    push_str(&mut m, what);
    push_str(&mut m, " '");
    push_str(&mut m, name);
    push_str(&mut m, "': ");
    push_str(&mut m, stderr);
    BundleError::EsbuildFailed(m)
}

/// The error of a failed type check: its standard output, a newline, and
/// its standard error.
pub fn typecheck_failure(stdout: &str, stderr: &str) -> (r: BundleError)
    ensures
        r matches BundleError::TypeCheckFailed(m) && m@ == stdout@ + "\n"@ + stderr@,
{
    let mut m = stdout.to_owned();
    push_str(&mut m, "\n");
    push_str(&mut m, stderr);
    BundleError::TypeCheckFailed(m)
}

/// The lowercase hexadecimal MD5 digest of some bytes.
pub uninterp spec fn md5_hex(bytes: Seq<u8>) -> Seq<char>;

/// Hashes bytes with `md5::Md5` and writes the digest with `{:x}`: the
/// result is `md5_hex` of the bytes, 32 characters long (two per byte of
/// the 16-byte digest).
#[verifier::external_body]
fn md5_of(bytes: &[u8]) -> (r: String)
    ensures
        r@ == md5_hex(bytes@),
        r@.len() == 32,
{
    let mut hasher = md5::Md5::new();
    hasher.update(bytes);
    format!("{:x}", hasher.finalize())
}

/// The content hash of a file's bytes (its MD5 digest).
pub fn content_hash(bytes: &[u8]) -> (r: String)
    ensures
        r@ == md5_hex(bytes@),
        r@.len() == 32,
{
    md5_of(bytes)
}

/// The cache key of a local library: its name and content hash.
pub fn local_library_cache_key(name: &str, content_hash: &str) -> (r: String)
    ensures
        r@ == "local_lib_"@ + name@ + "_"@ + content_hash@,
{
    let mut r = "local_lib_".to_owned();
    push_str(&mut r, name);
    push_str(&mut r, "_");
    push_str(&mut r, content_hash);
    r
}

/// The TypeScript compiler to run: the one given, else the one the
/// environment names, else `tsc`.
pub fn tsc_choice(explicit: Option<String>, from_environment: Option<String>) -> (r: String)
    ensures
        match explicit {
            Some(p) => r == p,
            None => match from_environment {
                Some(p) => r == p,
                None => r@ == "tsc"@,
            },
        },
{
    match explicit {
        Some(p) => p,
        None => match from_environment {
            Some(p) => p,
            None => "tsc".to_owned(),
        },
    }
}

/// Where a cached bundling looks first: the cache's key for the package.
#[derive(Debug)]
pub enum CachedBundleStep {
    /// The cache held the code: the bundle is this.
    Hit(String),
    /// Bundle the package, then store it under this key.
    Bundle { key: String },
}

/// Decides a cached bundling from what the cache held under the key.
pub fn cached_bundle_step(key: String, cached: Option<String>) -> (r: CachedBundleStep)
    ensures
        match cached {
            Some(c) => r == CachedBundleStep::Hit(c),
            None => r == CachedBundleStep::Bundle { key },
        },
{
    match cached {
        Some(c) => CachedBundleStep::Hit(c),
        None => CachedBundleStep::Bundle { key },
    }
}

} // verus!
