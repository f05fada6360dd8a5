//! Trusted boundary to the capture library.
//!
//! The capture library is a native graphics-debugging API loaded at run
//! time; nothing here is verified beyond the stated contracts. Each wrapper
//! makes exactly one call into the `renderdoc` crate, against its 1.1.0 API
//! baseline, and its doc comment names the function relied on.

use vstd::prelude::*;

verus! {

#[verifier::external_type_specification]
#[verifier::external_body]
#[verifier::reject_recursive_types(V)]
/// An instance of the capture API, opaque to verification.
pub struct ExRenderDoc<V>(renderdoc::RenderDoc<V>);

#[verifier::external_type_specification]
#[verifier::external_body]
/// The 1.1.0 baseline version marker of the capture API.
pub struct ExV110(renderdoc::V110);

#[verifier::external_type_specification]
#[verifier::external_body]
/// The capture library's error, opaque to verification.
pub struct ExRenderDocError(renderdoc::Error);

/// Relies on `renderdoc::RenderDoc::<V110>::new`: loads the capture library
/// and yields an API handle, or an error when no compatible library can be
/// found. The result depends on the machine, so nothing is promised of it.
/// Must run before the host creates a rendering device or window, an
/// ordering this crate's caller has to uphold.
#[verifier::external_body]
pub(crate) fn rd_attach() -> (r: Result<renderdoc::RenderDoc<renderdoc::V110>, renderdoc::Error>) {
    renderdoc::RenderDoc::<renderdoc::V110>::new()
}

/// Relies on `renderdoc::RenderDoc::set_log_file_path_template`: stores the
/// given path template for capture files in the capture library. The call
/// panics on a template with an interior NUL character, so the contract
/// excludes those.
#[verifier::external_body]
pub(crate) fn rd_set_log_file_path_template(
    rd: &mut renderdoc::RenderDoc<renderdoc::V110>,
    path_template: &str,
)
    requires
        !path_template@.contains('\0'),
{
    rd.set_log_file_path_template(path_template)
}

/// Relies on `renderdoc::RenderDoc::mask_overlay_bits`: applies the given
/// and/or masks, taken as raw bits, to the set of overlay elements the
/// capture library draws over the host application.
#[verifier::external_body]
pub(crate) fn rd_mask_overlay_bits(
    rd: &mut renderdoc::RenderDoc<renderdoc::V110>,
    and_bits: u32,
    or_bits: u32,
) {
    rd.mask_overlay_bits(
        renderdoc::OverlayBits::from_bits_truncate(and_bits),
        renderdoc::OverlayBits::from_bits_truncate(or_bits),
    )
}

/// Relies on `renderdoc::RenderDoc::launch_replay_ui`: asks the capture
/// library to spawn its replay viewer (connecting it to this application
/// when `connect_immediately` holds) and returns the viewer's process id.
/// The crate's source reports failure exactly when the native call returns a
/// zero process id, so a returned id is never zero; whether the launch
/// succeeds depends on the machine.
#[verifier::external_body]
pub(crate) fn rd_launch_replay_ui(
    rd: &renderdoc::RenderDoc<renderdoc::V110>,
    connect_immediately: bool,
    extra_opts: Option<&str>,
) -> (r: Result<u32, renderdoc::Error>)
    ensures
        r matches Ok(pid) ==> pid != 0,
{
    rd.launch_replay_ui(connect_immediately, extra_opts)
}

/// Relies on the `std::fmt::Display` impl of `renderdoc::Error`: renders the
/// error as a short human-readable message for logging.
#[verifier::external_body]
pub(crate) fn rd_error_message(e: &renderdoc::Error) -> (r: String) {
    format!("{}", e)
}

} // verus!
