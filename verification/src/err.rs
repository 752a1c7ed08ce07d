use vstd::prelude::*;

verus! {

/// What can go wrong while the plugin is set up.
#[derive(Debug, Clone, Copy, PartialEq, Eq)]
pub enum KiraPluginError {
    /// The audio manager could not be created.
    FailedToInitialize,
}

impl KiraPluginError {
    /// The text shown for this error.
    pub open spec fn message(self) -> Seq<char> {
        match self {
            KiraPluginError::FailedToInitialize => "failed to initialize kira"@,
        }
    }

    /// Renders the error as text.
    pub fn to_string(&self) -> (text: String)
        ensures
            text@ == self.message(),
    {
        match self {
            KiraPluginError::FailedToInitialize => "failed to initialize kira".to_owned(),
        }
    }
}

} // verus!
