use vstd::prelude::*;

verus! {

/// What can go wrong when building, editing or annotating sentences.
#[derive(Debug)]
pub enum AnnotateError {
    /// A model, label, vocabulary or configuration file could not be read.
    Io { message: String },
    /// The configuration is malformed or incomplete.
    Config { message: String },
    /// The tagger failed on a batch; no sentence of it is returned.
    TaggingFailed { message: String },
    /// A token index outside the sentence.
    IndexOutOfRange,
    /// A feature key that is not present.
    UnknownKey,
    /// Feature access on the root node.
    InvalidOperation,
    /// A defensive check failed: the pipeline itself is at fault.
    InternalInvariantViolation,
}

} // verus!
