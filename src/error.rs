use vstd::prelude::*;

verus! {

/// Why a worker could not be set up.
pub enum SetupError {
    /// The explicit entrypoint is not a valid URL.
    InvalidEntrypoint(String),
    /// The service directory does not give an absolute module path.
    InvalidServicePath(String),
    /// A trust store that is neither `mozilla` nor `system` was named.
    UnknownCertStore(String),
}

/// A setup error as plain values.
pub enum SetupFailure {
    InvalidEntrypoint(Seq<char>),
    InvalidServicePath(Seq<char>),
    UnknownCertStore(Seq<char>),
}

impl View for SetupError {
    type V = SetupFailure;

    open spec fn view(&self) -> SetupFailure {
        match self {
            SetupError::InvalidEntrypoint(u) => SetupFailure::InvalidEntrypoint(u@),
            SetupError::InvalidServicePath(p) => SetupFailure::InvalidServicePath(p@),
            SetupError::UnknownCertStore(s) => SetupFailure::UnknownCertStore(s@),
        }
    }
}

pub open spec fn setup_error_text(e: SetupError) -> Seq<char> {
    match e {
        SetupError::InvalidEntrypoint(u) => "invalid entrypoint URL: "@ + u@,
        SetupError::InvalidServicePath(p) => "service path is not absolute: "@ + p@,
        SetupError::UnknownCertStore(s) => "Unknown certificate store \""@ + s@
            + "\" specified (allowed: \"system,mozilla\")"@,
    }
}

impl SetupError {
    pub fn message(&self) -> (r: String)
        ensures
            r@ == setup_error_text(*self),
    {
        match self {
            SetupError::InvalidEntrypoint(u) => {
                let mut r = String::from_str("invalid entrypoint URL: ");
                r.append(u.as_str());
                r
            },
            SetupError::InvalidServicePath(p) => {
                let mut r = String::from_str("service path is not absolute: ");
                r.append(p.as_str());
                r
            },
            SetupError::UnknownCertStore(s) => {
                let mut r = String::from_str("Unknown certificate store \"");
                r.append(s.as_str());
                r.append("\" specified (allowed: \"system,mozilla\")");
                r
            },
        }
    }
}

/// An error of the runtime, compared by its message.
pub struct DenoRuntimeError {
    pub message: String,
}

impl DenoRuntimeError {
    pub fn new(message: String) -> (r: DenoRuntimeError)
        ensures
            r.message@ == message@,
    {
        DenoRuntimeError { message }
    }

    pub fn from_setup(e: &SetupError) -> (r: DenoRuntimeError)
        ensures
            r.message@ == setup_error_text(*e),
    {
        DenoRuntimeError { message: e.message() }
    }

    /// The message, as the error's debug form shows it.
    pub fn debug_text(&self) -> (r: String)
        ensures
            r@ == "[Js Error] "@ + self.message@,
    {
        let mut r = String::from_str("[Js Error] ");
        r.append(self.message.as_str());
        r
    }
}

impl PartialEq for DenoRuntimeError {
    fn eq(&self, other: &DenoRuntimeError) -> (r: bool) {
        self.message == other.message
    }
}

impl vstd::std_specs::cmp::PartialEqSpecImpl for DenoRuntimeError {
    open spec fn obeys_eq_spec() -> bool {
        true
    }

    open spec fn eq_spec(&self, other: &DenoRuntimeError) -> bool {
        self.message@ == other.message@
    }
}

/// The class of a guest error: the classified one, or `Error` where none was found.
pub fn get_error_class_name(classified: Option<String>) -> (r: String)
    ensures
        r@ == match classified {
            Some(c) => c@,
            None => "Error"@,
        },
{
    match classified {
        Some(c) => c,
        None => String::from_str("Error"),
    }
}

} // verus!
