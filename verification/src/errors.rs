//! Error kinds shared by the installation pipeline and the execution engine.

use vstd::prelude::*;

verus! {

/// Spec-level mirror of [`AppError`], with string payloads abstracted to
/// character sequences.
pub ghost enum AppErrorV {
    NotFound,
    AlreadyExists { name: Seq<char> },
    Disabled,
    InvalidPluginType,
    Validation { message: Seq<char> },
    Execution { message: Seq<char> },
    Io { message: Seq<char> },
}

/// The error kinds of the runtime: unknown identifier, plugin-name
/// collision, execution attempted on a disabled plugin, an unrecognised
/// runtime-kind tag, a rejected plugin definition, a process-level failure,
/// and a filesystem or transport failure reported by the embedding program.
#[derive(Debug)]
pub enum AppError {
    NotFound,
    AlreadyExists(String),
    Disabled,
    InvalidPluginType,
    Validation(String),
    Execution(String),
    Io(String),
}

impl View for AppError {
    type V = AppErrorV;

    open spec fn view(&self) -> AppErrorV {
        match self {
            AppError::NotFound => AppErrorV::NotFound,
            AppError::AlreadyExists(name) => AppErrorV::AlreadyExists { name: name@ },
            AppError::Disabled => AppErrorV::Disabled,
            AppError::InvalidPluginType => AppErrorV::InvalidPluginType,
            AppError::Validation(message) => AppErrorV::Validation { message: message@ },
            AppError::Execution(message) => AppErrorV::Execution { message: message@ },
            AppError::Io(message) => AppErrorV::Io { message: message@ },
        }
    }
}

/// The human-readable description that [`AppError::message`] returns.
pub open spec fn spec_message(e: AppErrorV) -> Seq<char> {
    match e {
        AppErrorV::NotFound => "not found"@,
        AppErrorV::AlreadyExists { name } => "plugin already exists: "@ + name,
        AppErrorV::Disabled => "plugin is disabled"@,
        AppErrorV::InvalidPluginType => "invalid plugin type"@,
        AppErrorV::Validation { message } => message,
        AppErrorV::Execution { message } => message,
        AppErrorV::Io { message } => message,
    }
}

impl AppError {
    /// A human-readable description of the error.
    pub fn message(&self) -> (r: String)
        ensures
            r@ == spec_message(self@),
    {
        match self {
            AppError::NotFound => String::from_str("not found"),
            AppError::AlreadyExists(name) => {
                let mut m = String::from_str("plugin already exists: ");
                m.append(name.as_str());
                m
            },
            AppError::Disabled => String::from_str("plugin is disabled"),
            AppError::InvalidPluginType => String::from_str("invalid plugin type"),
            AppError::Validation(message) => message.clone(),
            AppError::Execution(message) => message.clone(),
            AppError::Io(message) => message.clone(),
        }
    }
}

} // verus!
