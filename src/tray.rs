use vstd::prelude::*;

verus! {

/// Why the tray menu could not be updated.
#[derive(Debug, Clone)]
pub enum TrayError {
    /// The tray's state is not registered with the application.
    StateNotFound,
    /// The tray refused the change; holds the detail.
    IconSetFailed(String),
}

impl TrayError {
    /// The description of this error.
    pub open spec fn message_spec(&self) -> Seq<char> {
        match self {
            TrayError::StateNotFound => "Tray state not found in app"@,
            TrayError::IconSetFailed(detail) => "Failed to set icon: "@ + detail@,
        }
    }

    /// Returns the description of this error.
    pub fn message(&self) -> (r: String)
        ensures
            r@ == self.message_spec(),
    {
        match self {
            TrayError::StateNotFound => String::from_str("Tray state not found in app"),
            TrayError::IconSetFailed(detail) => String::from_str("Failed to set icon: ").concat(
                detail.as_str(),
            ),
        }
    }
}

} // verus!
