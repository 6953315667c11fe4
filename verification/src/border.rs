//! Border control: which upstream destination a request may reach.

use crate::border::host_control::Border;
use crate::border::host_control::Destination;
use crate::context::RequestContext;
use vstd::prelude::*;

pub mod host_control;

verus! {

/// Why a request may not pass.
#[derive(Clone, Copy, Debug, PartialEq, Eq, Structural)]
pub enum Denial {
    /// The gateway has no destination at all.
    NoDestinationsConfigured,
    /// The request names a destination that the gateway does not have.
    UnknownDestinationName,
    /// The request names no destination and the gateway has no default.
    NoDefaultDestination,
}

/// The words for each denial.
pub open spec fn reason_text(denial: Denial) -> Seq<char> {
    match denial {
        Denial::NoDestinationsConfigured => "no destinations configured"@,
        Denial::UnknownDestinationName => "unknown destination name"@,
        Denial::NoDefaultDestination => "no default destination"@,
    }
}

impl Denial {
    /// The denial in words.
    pub fn reason(&self) -> (r: &'static str)
        ensures
            r@ == reason_text(*self),
    {
        match self {
            Denial::NoDestinationsConfigured => "no destinations configured",
            Denial::UnknownDestinationName => "unknown destination name",
            Denial::NoDefaultDestination => "no default destination",
        }
    }
}

/// What a resolution says, with the destination as host and port.
pub open spec fn visa_view(r: Result<&Destination, Denial>) -> Result<(Seq<char>, u16), Denial> {
    match r {
        Ok(d) => Ok(d@),
        Err(e) => Err(e),
    }
}

/// A border decides, request by request, where a request may go. A decision
/// reads the border and the request and changes neither: the same request
/// gets the same answer.
pub trait BorderControl {
    /// The decision for a request.
    spec fn visa(&self, req: RequestContext) -> Result<(Seq<char>, u16), Denial>;

    /// Decides on a request: the destination it may reach, or the denial.
    fn request_visa(&self, req: &RequestContext) -> (r: Result<&Destination, Denial>)
        ensures
            visa_view(r) == self.visa(*req),
    ;
}

/// Asking a border twice about the same request gives the same answer: no
/// decision leaves a trace in the border.
pub proof fn visa_is_repeatable<B: BorderControl>(
    border: B,
    req: RequestContext,
    first: Result<&Destination, Denial>,
    second: Result<&Destination, Denial>,
)
    requires
        visa_view(first) == border.visa(req),
        visa_view(second) == border.visa(req),
    ensures
        visa_view(first) == visa_view(second),
{
}

/// Something that a border can be drawn from: it holds a table of named
/// destinations, and the border it builds decides by that table.
pub trait BorderControlBuilder: Sized {
    /// The table: for each name, host and port of its destination.
    spec fn table(&self) -> Map<Seq<char>, (Seq<char>, u16)>;

    /// Draws the border.
    fn build(self) -> (r: Border)
        ensures
            r.table() == self.table(),
    ;
}

/// The border of a gateway without destinations: nothing passes.
#[derive(Clone, Copy, Debug)]
pub struct ClosedBorder;

impl ClosedBorder {
    /// The closed border. There is only one.
    pub fn new() -> (r: Self)
        ensures
            r == ClosedBorder,
    {
        ClosedBorder {  }
    }
}

impl BorderControl for ClosedBorder {
    open spec fn visa(&self, req: RequestContext) -> Result<(Seq<char>, u16), Denial> {
        Err(Denial::NoDestinationsConfigured)
    }

    fn request_visa(&self, req: &RequestContext) -> (r: Result<&Destination, Denial>) {
        Err(Denial::NoDestinationsConfigured)
    }
}

} // verus!
