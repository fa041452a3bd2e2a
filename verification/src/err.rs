use vstd::prelude::*;

verus! {

/// Errors produced while loading assets or constructing passes.
///
/// Every variant is fatal for the operation that produced it: the caller is
/// expected to surface it, not to substitute a default asset.
#[derive(Clone, Debug, PartialEq, Eq)]
pub enum RenderError {
    /// The named asset is not present in the asset store.
    NotFound { name: String },
    /// A shader `#include` chain went deeper than the configured maximum.
    IncludeDepthExceeded { name: String },
    /// A shader file name carries no recognized stage extension.
    UnknownShaderExtension { name: String },
    /// An image file could not be decoded at all.
    DecodeFailed { name: String },
    /// An image decoded to a pixel layout the renderer does not upload.
    UnsupportedFormat { name: String },
    /// A model file could not be parsed.
    ParseFailed { name: String },
    /// A model name was looked up in a file that does not contain it.
    ModelMissing { file: String, name: String },
    /// A model is missing a vertex attribute the pipeline requires.
    MissingAttribute { name: String },
    /// The identifier space for live GPU objects is exhausted.
    OutOfHandles,
}

} // verus!
