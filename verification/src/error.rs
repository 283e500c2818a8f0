use vstd::prelude::*;

verus! {

/// Failures of command-line handling.
#[derive(Clone, Debug, PartialEq, Eq)]
pub enum CLIError {
    /// The given text names no anchor point.
    Anchor(String),
}

/// Failures around the configuration directory.  Each variant carries the
/// path concerned and the text of the underlying failure.
#[derive(Clone, Debug, PartialEq, Eq)]
pub enum ConfigError {
    /// The directory cannot be accessed.
    Read { e: String, path: String },
    /// The directory cannot be created.
    Create { e: String, path: String },
    /// The path exists but is no directory.
    NotDirectory(String),
}

/// Failures around reading, compiling and writing stylesheets.
#[derive(Clone, Debug, PartialEq, Eq)]
pub enum StyleError {
    /// The style file cannot be created.
    Create { e: String, path: String },
    /// The style file's extension names no known stylesheet form.
    Extension,
    /// The style file cannot be read.
    Read { e: String, path: String },
    /// The style file's metadata cannot be read.
    Meta { e: String, path: String },
    /// The style file's modification time cannot be read.
    MTime { e: String, path: String },
    /// The style cannot be written to the file.
    Write { e: String, path: String },
    /// There is no style file at the path.
    NotFound,
    /// The stylesheet compiler refused the sheet; carries its message.
    Sass(String),
}

/// Failures around the compiled-style cache.  Each variant carries the
/// path concerned and the text of the underlying failure.
#[derive(Clone, Debug, PartialEq, Eq)]
pub enum CacheError {
    /// The cache file cannot be created.
    Create { e: String, path: String },
    /// The cache file cannot be read.
    Read { e: String, path: String },
    /// The cache file cannot be written.
    Write { e: String, path: String },
    /// The cache file's modification time cannot be set.
    MTime { e: String, path: String },
}

} // verus!
