//! Declarations of the foreign failure signals that the error taxonomy wraps,
//! together with the small trusted functions that capture their rendered text.
//!
//! Each wrapper's body only calls the foreign type's own formatting; what the
//! foreign source pins down is stated in the wrapper's contract, and nothing
//! more.
use vstd::prelude::*;

verus! {

#[verifier::external_type_specification]
#[verifier::external_body]
pub struct ExIoError(std::io::Error);

#[verifier::external_type_specification]
#[verifier::external_body]
pub struct ExTryFromSliceError(std::array::TryFromSliceError);

#[verifier::external_type_specification]
#[verifier::external_body]
#[verifier::reject_recursive_types(T)]
pub struct ExPoisonError<T>(std::sync::PoisonError<T>);

#[verifier::external_type_specification]
#[verifier::external_body]
#[verifier::reject_recursive_types(T)]
pub struct ExMpscSendError<T>(std::sync::mpsc::SendError<T>);

#[verifier::external_type_specification]
#[verifier::external_body]
#[verifier::reject_recursive_types(T)]
pub struct ExTokioSendError<T>(tokio::sync::mpsc::error::SendError<T>);

#[verifier::external_type_specification]
#[verifier::external_body]
pub struct ExElapsed(tokio::time::error::Elapsed);

/// Relies on the `Display` impl of `std::io::Error`: the failure's own
/// message, whose content std does not pin down.
#[verifier::external_body]
pub(crate) fn io_error_text(e: &std::io::Error) -> String {
    format!("{}", e)
}

/// Relies on the `Display` impl of `std::array::TryFromSliceError`: the
/// failure's own message, whose content std does not pin down.
#[verifier::external_body]
pub(crate) fn slice_error_text(e: &std::array::TryFromSliceError) -> String {
    format!("{}", e)
}

/// Relies on the `Display` impl of `std::sync::PoisonError`: the poison
/// notification's own message, whose content std does not pin down.
#[verifier::external_body]
pub(crate) fn poison_error_text<T>(e: &std::sync::PoisonError<T>) -> String {
    format!("{}", e)
}

/// Relies on the `Display` impl of `std::sync::mpsc::SendError`: the send
/// failure's own message, whose content std does not pin down.
#[verifier::external_body]
pub(crate) fn mpsc_send_error_text<T>(e: &std::sync::mpsc::SendError<T>) -> String {
    format!("{}", e)
}

/// Relies on the `Display` impl of `tokio::sync::mpsc::error::SendError`,
/// which writes exactly "channel closed" for every payload type.
#[verifier::external_body]
pub(crate) fn tokio_send_error_text<T>(e: &tokio::sync::mpsc::error::SendError<T>) -> (r: String)
    ensures
        r@ == "channel closed"@,
{
    format!("{}", e)
}

/// Relies on the `Display` impl of `tokio::time::error::Elapsed`, which
/// writes exactly "deadline has elapsed".
#[verifier::external_body]
pub(crate) fn elapsed_text(e: &tokio::time::error::Elapsed) -> (r: String)
    ensures
        r@ == "deadline has elapsed"@,
{
    format!("{}", e)
}

} // verus!
