//! Decisions around GPU resource creation: shader stage outcomes and draw sizes.
use vstd::prelude::*;
use crate::error::{ResourceError, ShaderError};

verus! {

/// The diagnostic text to report: the native log when there is one, else `fallback`.
pub open spec fn log_text(log: Option<String>, fallback: Seq<char>) -> Seq<char> {
    match log {
        Some(s) => s@,
        None => fallback,
    }
}

/// Outcome of compiling one shader stage, from its compile status and info log.
pub fn compile_outcome(compiled: bool, info_log: Option<String>) -> (r: Result<(), ShaderError>)
    ensures
        compiled ==> r is Ok,
        !compiled ==> (r matches Err(ShaderError::CompileFailed(s)) && s@ == log_text(
            info_log,
            "Unknown error creating shader"@,
        )),
{
    if compiled {
        return Ok(());
    }
    match info_log {
        Some(s) => Err(ShaderError::CompileFailed(s)),
        None => {
            let s = "Unknown error creating shader".to_string();
            Err(ShaderError::CompileFailed(s))
        },
    }
}

/// Outcome of linking a program, from its link status and info log.
pub fn link_outcome(linked: bool, info_log: Option<String>) -> (r: Result<(), ShaderError>)
    ensures
        linked ==> r is Ok,
        !linked ==> (r matches Err(ShaderError::LinkFailed(s)) && s@ == log_text(
            info_log,
            "Unknown error creating program object"@,
        )),
{
    if linked {
        return Ok(());
    }
    match info_log {
        Some(s) => Err(ShaderError::LinkFailed(s)),
        None => {
            let s = "Unknown error creating program object".to_string();
            Err(ShaderError::LinkFailed(s))
        },
    }
}

/// Number of vertices in a stream of `scalar_count` position scalars (three per vertex),
/// as the signed count a draw call takes.
pub fn vertex_count(scalar_count: usize) -> (r: Result<i32, ResourceError>)
    ensures
        scalar_count / 3 <= i32::MAX ==> r == Ok::<i32, ResourceError>((scalar_count / 3) as i32),
        scalar_count / 3 > i32::MAX ==> r == Err::<i32, ResourceError>(ResourceError::TooManyVertices),
{
    let n = scalar_count / 3;
    if n > i32::MAX as usize {
        Err(ResourceError::TooManyVertices)
    } else {
        Ok(n as i32)
    }
}

} // verus!
