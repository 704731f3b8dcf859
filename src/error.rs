//! The errors that end a session.

use vstd::prelude::*;

verus! {

/// Why the front end stopped. Each variant carries the text of its cause.
#[derive(Clone, Debug, PartialEq, Eq)]
pub enum FepError {
    /// Reading from or writing to the terminal failed.
    Io(String),
    /// The terminal could not be put into interactive mode.
    TerminalSetup(String),
    /// The input method could not be reached, or the connection to it was lost.
    FcitxConnection(String),
    /// The message bus reported an error.
    Zbus(String),
}

/// The prefix that names each kind of error in its message.
pub open spec fn error_prefix(e: FepError) -> Seq<char> {
    match e {
        FepError::Io(_) => "IO Error: "@,
        FepError::TerminalSetup(_) => "Terminal Setup Error: "@,
        FepError::FcitxConnection(_) => "Fcitx Connection Error: "@,
        FepError::Zbus(_) => "D-Bus Error: "@,
    }
}

impl FepError {
    /// The text that the error carries.
    pub open spec fn detail(self) -> Seq<char> {
        match self {
            FepError::Io(m) => m@,
            FepError::TerminalSetup(m) => m@,
            FepError::FcitxConnection(m) => m@,
            FepError::Zbus(m) => m@,
        }
    }

    /// A message for the user: the kind of error, then its text.
    pub fn to_string(&self) -> (r: String)
        ensures
            r@ == error_prefix(*self) + self.detail(),
    {
        let (prefix, detail) = match self {
            FepError::Io(m) => ("IO Error: ", m),
            FepError::TerminalSetup(m) => ("Terminal Setup Error: ", m),
            FepError::FcitxConnection(m) => ("Fcitx Connection Error: ", m),
            FepError::Zbus(m) => ("D-Bus Error: ", m),
        };
        let mut r = String::from_str(prefix);
        r.append(detail.as_str());
        r
    }
}

} // verus!
