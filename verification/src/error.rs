use vstd::prelude::*;

verus! {

/// Everything that can go wrong between QuietWatch and the audio system.
#[derive(Clone, Debug, PartialEq, Eq)]
pub enum QuietWatchError {
    /// The named backend does not exist on this platform.
    UnsupportedPlatform(&'static str),
    /// No device with this id.
    DeviceNotFound(String),
    /// The backend reported a failure.
    Backend(String),
    /// A setting is out of range.
    InvalidConfig(String),
}

/// An error with its text as a sequence of characters.
pub enum ErrorView {
    UnsupportedPlatform(Seq<char>),
    DeviceNotFound(Seq<char>),
    Backend(Seq<char>),
    InvalidConfig(Seq<char>),
}

impl View for QuietWatchError {
    type V = ErrorView;

    open spec fn view(&self) -> ErrorView {
        match self {
            QuietWatchError::UnsupportedPlatform(name) => ErrorView::UnsupportedPlatform(name@),
            QuietWatchError::DeviceNotFound(id) => ErrorView::DeviceNotFound(id@),
            QuietWatchError::Backend(message) => ErrorView::Backend(message@),
            QuietWatchError::InvalidConfig(message) => ErrorView::InvalidConfig(message@),
        }
    }
}

/// The sentence a user is shown for an error.
pub open spec fn error_message(e: ErrorView) -> Seq<char> {
    match e {
        ErrorView::UnsupportedPlatform(name) => "audio backend `"@ + name
            + "` is not available on this platform"@,
        ErrorView::DeviceNotFound(id) => "audio device not found: "@ + id,
        ErrorView::Backend(message) => "audio backend error: "@ + message,
        ErrorView::InvalidConfig(message) => "invalid config: "@ + message,
    }
}

impl QuietWatchError {
    /// The human-readable description of this error.
    pub fn message(&self) -> (text: String)
        ensures
            text@ == error_message(self@),
    {
        match self {
            QuietWatchError::UnsupportedPlatform(name) => {
                let mut text = "audio backend `".to_owned();
                text.append(name);
                text.append("` is not available on this platform");
                text
            },
            QuietWatchError::DeviceNotFound(id) => {
                let mut text = "audio device not found: ".to_owned();
                text.append(id.as_str());
                text
            },
            QuietWatchError::Backend(message) => {
                let mut text = "audio backend error: ".to_owned();
                text.append(message.as_str());
                text
            },
            QuietWatchError::InvalidConfig(message) => {
                let mut text = "invalid config: ".to_owned();
                text.append(message.as_str());
                text
            },
        }
    }
}

} // verus!
