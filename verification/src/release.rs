//! The release data model and the asset-selection step: a release is a tag, an
//! optional markdown body, and an ordered list of downloadable assets, of which
//! the pipeline always takes the first.

use vstd::prelude::*;

use crate::errors::AppError;

verus! {

/// One downloadable file attached to a release: its display name (which
/// carries the file extension) and its download URL.
pub struct Asset {
    pub name: String,
    pub url: String,
}

/// One published release: its tag, its optional markdown notes, and its
/// ordered asset list.
pub struct Release {
    pub tag_name: String,
    pub body: Option<String>,
    pub assets: Vec<Asset>,
}

impl Release {
    /// Selects the asset to download: always the first of the list. A release
    /// without assets is a fatal `NoAsset` error whose message names the tag;
    /// nothing is downloaded for it.
    pub fn first_asset(&self) -> (r: Result<&Asset, AppError>)
        ensures
            match r {
                Ok(a) => self.assets@.len() > 0 && *a == self.assets@[0],
                Err(e) => self.assets@.len() == 0 && (e matches AppError::NoAsset { tag }
                    && tag@ == self.tag_name@),
            },
    {
        if self.assets.len() > 0 {
            Ok(&self.assets[0])
        } else {
            Err(AppError::NoAsset { tag: self.tag_name.clone() })
        }
    }
}

/// The progress line printed once the release is known.
pub fn found_release_line(tag: &str) -> (r: String)
    ensures
        r@ == "Found release "@ + tag@,
{
    let mut s = String::from_str("Found release ");
    s.append(tag);
    s
}

/// The progress line printed before the download starts.
pub fn downloading_asset_line(name: &str) -> (r: String)
    ensures
        r@ == "Downloading asset "@ + name@,
{
    let mut s = String::from_str("Downloading asset ");
    s.append(name);
    s
}

/// The line printed for each file the installer materialized.
pub fn file_line(name: &str) -> (r: String)
    ensures
        r@ == "File: "@ + name@,
{
    let mut s = String::from_str("File: ");
    s.append(name);
    s
}

} // verus!
