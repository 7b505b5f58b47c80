//! The ways in which one scan can fail.

use vstd::prelude::*;

verus! {

/// A field that a path cannot be derived without.
#[derive(Clone, Copy, Debug, PartialEq, Eq, Structural)]
pub enum MissingField {
    /// Neither an album artist nor an artist.
    Artist,
    Album,
    Title,
}

/// Why a scan failed.
#[derive(Clone, Copy, Debug, PartialEq, Eq, Structural)]
pub enum ScanError {
    /// The fingerprinting tool could not be run, failed, or printed something
    /// that is no fingerprint.
    ExternalToolError,
    /// The fingerprint lookup gave no candidate, or none good enough.
    NoMatch,
    /// The search by title has nothing to search for: the file has no title
    /// tag.
    NoTitleTag,
    /// A request to the catalog or to the lookup service failed, or its
    /// answer could not be read.
    CatalogRequestError,
    /// No candidate recording has a release that could be scored.
    NoMatchFound,
    /// The chosen release holds no track of the chosen recording.
    InconsistentCatalogData,
    /// The metadata lacks a field that the path is derived from.
    IncompleteMetadata(MissingField),
    /// The target path is taken and overwriting is not allowed.
    AlreadyExists,
    /// The file or its tags could not be read or written.
    FileError,
}

impl ScanError {
    /// The cause in words.
    pub fn message(&self) -> (r: String)
        ensures
            r@ == self.message_spec(),
    {
        match self {
            ScanError::ExternalToolError => String::from_str("Failed to calc fingerprint"),
            ScanError::NoMatch => String::from_str("No acoustid match found."),
            ScanError::NoTitleTag => String::from_str("No title tag"),
            ScanError::CatalogRequestError => String::from_str("Catalog request failed"),
            ScanError::NoMatchFound => String::from_str("Failed to find best match"),
            ScanError::InconsistentCatalogData => String::from_str("No media found"),
            ScanError::IncompleteMetadata(MissingField::Artist) => String::from_str(
                "artist not found",
            ),
            ScanError::IncompleteMetadata(MissingField::Album) => String::from_str(
                "album not found",
            ),
            ScanError::IncompleteMetadata(MissingField::Title) => String::from_str(
                "title not found",
            ),
            ScanError::AlreadyExists => String::from_str("File already exists! Skipping..."),
            ScanError::FileError => String::from_str("Failed to read or write file"),
        }
    }

    /// The cause in words.
    pub open spec fn message_spec(&self) -> Seq<char> {
        match self {
            ScanError::ExternalToolError => "Failed to calc fingerprint"@,
            ScanError::NoMatch => "No acoustid match found."@,
            ScanError::NoTitleTag => "No title tag"@,
            ScanError::CatalogRequestError => "Catalog request failed"@,
            ScanError::NoMatchFound => "Failed to find best match"@,
            ScanError::InconsistentCatalogData => "No media found"@,
            ScanError::IncompleteMetadata(MissingField::Artist) => "artist not found"@,
            ScanError::IncompleteMetadata(MissingField::Album) => "album not found"@,
            ScanError::IncompleteMetadata(MissingField::Title) => "title not found"@,
            ScanError::AlreadyExists => "File already exists! Skipping..."@,
            ScanError::FileError => "Failed to read or write file"@,
        }
    }
}

} // verus!
