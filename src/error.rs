use vstd::prelude::*;

verus! {

/// Why an extraction step gave up. Every step fails fast: the first error ends
/// the run and no partial record is produced.
#[derive(Clone, Copy, Debug, PartialEq, Eq, Structural)]
pub enum ExtractError {
    /// A required element was not on the page.
    ElementNotFound,
    /// An element lacked a required attribute.
    AttributeMissing,
    /// The heading text did not hold a readable date window.
    DateParseError,
    /// The page's layout did not have the expected number of parts.
    StructuralMismatch,
    /// The outbound record could not be delivered.
    TransportError,
}

} // verus!
