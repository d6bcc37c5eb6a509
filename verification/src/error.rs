use vstd::prelude::*;

verus! {

/// The closed set of failures surfaced while reading font data.  Every
/// operation of this crate either succeeds or returns one of these; nothing
/// is thrown.
#[derive(Clone, Copy, Debug, PartialEq, Eq, Structural)]
pub enum Error {
    /// The byte buffer does not carry any signature this crate recognizes.
    UnrecognizedFormat,
    /// The buffer carries a recognized signature but its internal layout is
    /// unreadable, for example because a required table is missing.
    IllFormed,
    /// A font was requested at an index beyond the collection's extent.
    CollectionIndexOutOfBounds,
    /// The collection was asked for "the" font but holds more than one.
    CollectionContainsMultipleFonts,
}

impl Error {
    /// The message that `description` returns for this error.
    pub open spec fn description_spec(self) -> Seq<char> {
        match self {
            Error::UnrecognizedFormat => "Font data in unrecognized format"@,
            Error::IllFormed => "Font data is ill-formed"@,
            Error::CollectionIndexOutOfBounds => "Font collection has no font at the given index"@,
            Error::CollectionContainsMultipleFonts => "Attempted to convert collection into a font, but collection contais more than one font"@,
        }
    }

    /// A short human-readable message for this error.
    pub fn description(&self) -> (r: &'static str)
        ensures
            r@ == self.description_spec(),
    {
        match *self {
            Error::UnrecognizedFormat => "Font data in unrecognized format",
            Error::IllFormed => "Font data is ill-formed",
            Error::CollectionIndexOutOfBounds => "Font collection has no font at the given index",
            Error::CollectionContainsMultipleFonts => "Attempted to convert collection into a font, but collection contais more than one font",
        }
    }
}

} // verus!
