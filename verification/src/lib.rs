use vstd::prelude::*;

pub mod app;
pub mod bind;
pub mod gpu;
pub mod input;
pub mod io;
pub mod math;
pub mod model;
pub mod pipeline;
pub mod texture;

use crate::app::AppBuilderStage1;

verus! {

/// What can go wrong in the library.
pub enum LuxError {
    WgpuFailedInit { error: String },
    IoError(String),
    AppInitFailed,
    AppFrameFailed,
}

/// The message that describes an error.
pub open spec fn error_message(e: LuxError) -> Seq<char> {
    match e {
        LuxError::WgpuFailedInit { error } => "wgpu failed to be initialized: "@ + error@,
        LuxError::IoError(s) => "failed reading file: "@ + s@,
        LuxError::AppInitFailed => "issue found while starting app"@,
        LuxError::AppFrameFailed => "issue found on app's frame"@,
    }
}

impl LuxError {
    /// The human-readable description of the error.
    pub fn message(&self) -> (m: String)
        ensures
            m@ == error_message(*self),
    {
        match self {
            LuxError::WgpuFailedInit { error } => String::from_str(
                "wgpu failed to be initialized: ",
            ).concat(error.as_str()),
            LuxError::IoError(s) => String::from_str("failed reading file: ").concat(s.as_str()),
            LuxError::AppInitFailed => String::from_str("issue found while starting app"),
            LuxError::AppFrameFailed => String::from_str("issue found on app's frame"),
        }
    }
}

/// Starts building an application with the default window settings.
pub fn setup() -> (b: AppBuilderStage1)
    ensures
        b@ == crate::app::default_desc(),
{
    AppBuilderStage1::default()
}

} // verus!
