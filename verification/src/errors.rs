//! The error taxonomy of the pipeline. Every failure is terminal: the first
//! error aborts the run, and only its message is reported.

use vstd::prelude::*;

verus! {

/// One variant per fatal condition of the pipeline.
#[derive(Debug)]
pub enum AppError {
    /// The release-hosting service was unreachable or returned no release.
    Lookup,
    /// The release carries no asset at all; the tag names the release.
    NoAsset { tag: String },
    /// The asset's bytes could not be downloaded.
    Download,
    /// The asset's name holds no `.`, so no extension can be read.
    Extension,
    /// The asset's extension is neither `zip` nor `exe`.
    UnsupportedFormat { ext: String },
    /// The downloaded bytes are not a readable zip archive.
    Extract,
    /// A file could not be written; the name is the intended path.
    Io { name: String },
    /// The release notes hold a markdown construct the renderer refuses.
    UnsupportedMarkdown,
}

/// The exact message that each error reports.
pub open spec fn message_spec(e: AppError) -> Seq<char> {
    match e {
        AppError::Lookup => "failed to look up the latest release"@,
        AppError::NoAsset { tag } => "No asset found on latest release "@ + tag@,
        AppError::Download => "failed to download the asset"@,
        AppError::Extension => "asset has no extension"@,
        AppError::UnsupportedFormat { ext } => "extension "@ + ext@ + " is unsupported"@,
        AppError::Extract => "failed to extract the archive"@,
        AppError::Io { name } => "failed to write "@ + name@,
        AppError::UnsupportedMarkdown => "release notes contain unsupported markdown"@,
    }
}

impl AppError {
    /// The human-readable message printed when the run aborts.
    pub fn message(&self) -> (r: String)
        ensures
            r@ == message_spec(*self),
    {
        match self {
            AppError::Lookup => String::from_str("failed to look up the latest release"),
            AppError::NoAsset { tag } => {
                let mut s = String::from_str("No asset found on latest release ");
                s.append(tag.as_str());
                s
            },
            AppError::Download => String::from_str("failed to download the asset"),
            AppError::Extension => String::from_str("asset has no extension"),
            AppError::UnsupportedFormat { ext } => {
                let mut s = String::from_str("extension ");
                s.append(ext.as_str());
                s.append(" is unsupported");
                s
            },
            AppError::Extract => String::from_str("failed to extract the archive"),
            AppError::Io { name } => {
                let mut s = String::from_str("failed to write ");
                s.append(name.as_str());
                s
            },
            AppError::UnsupportedMarkdown => String::from_str(
                "release notes contain unsupported markdown",
            ),
        }
    }
}

} // verus!
