use vstd::prelude::*;

verus! {

/// Everything that can go wrong inside the library: a configuration value
/// out of range, or a status file whose contents cannot be understood.
/// I/O failures stay with the caller that performs the I/O.
#[derive(Clone, Copy, Debug, PartialEq, Eq, Structural)]
pub enum TomoError {
    /// The block count is outside the accepted range.
    NumBlocksOutOfRange,
    /// The backdating argument of a start action is over its limit.
    ElapsedMinsTooLarge,
    /// The status file holds neither a known token nor a readable timestamp.
    StatusParse,
}

impl TomoError {
    /// The human-readable text for each error.
    pub open spec fn message_spec(self) -> Seq<char> {
        match self {
            TomoError::NumBlocksOutOfRange => "number of blocks needs to be between 3 and 100"@,
            TomoError::ElapsedMinsTooLarge => "elapsed mins cannot be greater than 20"@,
            TomoError::StatusParse => "couldn't parse time from the data file"@,
        }
    }

    /// Renders the error as a message for the user.
    pub fn message(&self) -> (r: String)
        ensures
            r@ == self.message_spec(),
    {
        match self {
            TomoError::NumBlocksOutOfRange => String::from_str(
                "number of blocks needs to be between 3 and 100",
            ),
            TomoError::ElapsedMinsTooLarge => String::from_str(
                "elapsed mins cannot be greater than 20",
            ),
            TomoError::StatusParse => String::from_str("couldn't parse time from the data file"),
        }
    }
}

} // verus!
