use vstd::prelude::*;

verus! {

/// What can go wrong while setting up the database connection.
#[derive(Debug, Clone, Copy, PartialEq, Eq, Structural)]
pub enum Error {
    SetupDb,
    ReadConfig,
}

impl Error {
    /// The message shown for this failure.
    pub fn message(&self) -> (r: &'static str)
        ensures
            *self is SetupDb ==> r@ == "Couldn't setup db properly"@,
            *self is ReadConfig ==> r@
                == "Couldn't read config from file 'secrets.toml' properly"@,
    {
        match self {
            Error::SetupDb => "Couldn't setup db properly",
            Error::ReadConfig => "Couldn't read config from file 'secrets.toml' properly",
        }
    }
}

} // verus!
