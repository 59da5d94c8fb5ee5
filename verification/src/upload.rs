//! The parts of an upload request and the order in which they arrive.

use vstd::prelude::*;

verus! {

/// A part of an upload request. The description of the upload comes first,
/// the uploaded data after it.
#[derive(Clone, Copy, Debug, PartialEq, Eq, Structural)]
pub enum Part {
    Metadata,
    Data,
}

impl Part {
    /// The name under which the part is sent.
    pub open spec fn name_text(self) -> Seq<char> {
        match self {
            Part::Metadata => "metadata"@,
            Part::Data => "data"@,
        }
    }

    /// The name under which the part is sent.
    pub fn name(self) -> (name: &'static str)
        ensures
            name@ == self.name_text(),
    {
        match self {
            Part::Metadata => "metadata",
            Part::Data => "data",
        }
    }

    /// The part that follows this one, if one does.
    pub fn following(self) -> (next: Option<Part>)
        ensures
            next == match self {
                Part::Metadata => Some(Part::Data),
                Part::Data => None::<Part>,
            },
    {
        match self {
            Part::Metadata => Some(Part::Data),
            Part::Data => None,
        }
    }

    /// Whether a field of the request is this part: it is where it has a
    /// name, and the name is that of the part. `None` stands for a request
    /// that has no further field, or a field without a name.
    pub fn admits(self, field: Option<&str>) -> (ok: bool)
        ensures
            ok == (field matches Some(name) && name@ == self.name_text()),
    {
        match field {
            Some(name) => name.to_owned() == self.name().to_owned(),
            None => false,
        }
    }
}

} // verus!
