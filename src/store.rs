//! Where records are kept: a category directory under the per-user data
//! directory of the platform.
use vstd::prelude::*;

verus! {

/// The two storage namespaces; each one is a subdirectory of the data directory.
#[derive(Clone, Copy, Debug, PartialEq, Eq, Structural)]
pub enum FileCategory {
    App,
    Config,
}

/// The directory name of a category.
pub open spec fn category_name(c: FileCategory) -> Seq<char> {
    match c {
        FileCategory::App => seq!['a', 'p', 'p'],
        FileCategory::Config => seq!['c', 'o', 'n', 'f', 'i', 'g'],
    }
}

impl FileCategory {
    pub fn as_str(&self) -> (r: &'static str)
        ensures
            r@ == category_name(*self),
    {
        match self {
            FileCategory::App => {
                let s = "app";
                proof {
                    reveal_strlit("app");
                }
                assert(s@ =~= category_name(*self));
                s
            },
            FileCategory::Config => {
                let s = "config";
                proof {
                    reveal_strlit("config");
                }
                assert(s@ =~= category_name(*self));
                s
            },
        }
    }
}

/// Why a record could not be stored or loaded.
#[derive(Clone, Debug, PartialEq, Eq)]
pub enum StoreError {
    /// The platform's data directory could not be determined.
    PathResolution,
    /// A directory could not be created, or a file could not be read or written.
    Io(String),
    /// The record could not be encoded.
    Encoding,
    /// The bytes do not hold a record of the expected kind.
    Decoding,
}

/// The human-readable text of each store error.
pub open spec fn store_error_text(e: StoreError) -> Seq<char> {
    match e {
        StoreError::PathResolution => "Failed to determine base directories"@,
        StoreError::Io(m) => m@,
        StoreError::Encoding => "Failed to encode the record"@,
        StoreError::Decoding => "The stored bytes do not hold the expected record"@,
    }
}

impl StoreError {
    /// A human-readable description of the error.
    pub fn message(&self) -> (r: String)
        ensures
            r@ == store_error_text(*self),
    {
        match self {
            StoreError::PathResolution => "Failed to determine base directories".to_owned(),
            StoreError::Io(m) => m.clone(),
            StoreError::Encoding => "Failed to encode the record".to_owned(),
            StoreError::Decoding => "The stored bytes do not hold the expected record".to_owned(),
        }
    }
}

/// The location of a record: `<base>/<category>/<file_name>`.
#[derive(Clone, Debug)]
pub struct StorePath {
    /// The platform's per-user data directory.
    pub base: String,
    pub category: FileCategory,
    pub file_name: String,
}

/// Relies on directories::BaseDirs::new and BaseDirs::data_dir: the per-user
/// data directory of the platform, when the home directory can be found and
/// the path is valid UTF-8 (`Path::to_str`). It depends on the environment, so
/// nothing is stated of the value.
#[verifier::external_body]
fn platform_data_dir() -> (r: Option<String>) {
    let dirs = directories::BaseDirs::new()?;
    dirs.data_dir().to_str().map(|p| p.to_owned())
}

/// Places `file_name` of `category` under the data directory `base`, if one was found.
pub fn resolve_path(base: Option<String>, file_name: &str, category: FileCategory) -> (r: Result<
    StorePath,
    StoreError,
>)
    ensures
        base is None <==> r == Err::<StorePath, StoreError>(StoreError::PathResolution),
        base matches Some(b) ==> (r matches Ok(p) && p.base@ == b@ && p.category == category
            && p.file_name@ == file_name@),
{
    match base {
        None => Err(StoreError::PathResolution),
        Some(b) => Ok(StorePath { base: b, category, file_name: file_name.to_owned() }),
    }
}

/// The location of `file_name` of `category` in the platform's data directory.
pub fn get_file_path(file_name: &str, category: FileCategory) -> (r: Result<StorePath, StoreError>)
    ensures
        r is Err ==> r == Err::<StorePath, StoreError>(StoreError::PathResolution),
        r matches Ok(p) ==> p.category == category && p.file_name@ == file_name@,
{
    resolve_path(platform_data_dir(), file_name, category)
}

} // verus!
