//! The bodies of the requests and the rows of the stores, as plain values.
//! Identifiers are 128-bit numbers and times are seconds since the epoch.

use vstd::prelude::*;

verus! {

/// The body of a registration request.
#[derive(Debug)]
pub struct RegisterPayload {
    pub username: String,
    pub email: String,
    pub password: String,
}

/// The body of a login request.
#[derive(Debug)]
pub struct LoginPayload {
    pub email: String,
    pub password: String,
}

/// The body of a reset request.
#[derive(Debug)]
pub struct ResetRequest {
    pub email: String,
}

/// The body of a reset verification.
#[derive(Debug)]
pub struct ResetVerifyPayload {
    pub user_id: u128,
    pub email: String,
    pub otp: String,
    pub new_password: String,
    pub confirm_password: String,
}

/// An account, as the user store holds it.
#[derive(Debug)]
pub struct User {
    pub id: u128,
    pub username: String,
    pub email: String,
    pub password_hash: String,
    pub created_at: i64,
}

/// A pending verification of an e-mail address.
#[derive(Debug)]
pub struct EmailVerification {
    pub id: u128,
    pub email: String,
    pub otp_code: String,
    pub created_at: i64,
    pub verified: bool,
    pub attempt_count: i32,
}

/// The body of an e-mail verification.
#[derive(Debug)]
pub struct VerifyEmailPayload {
    pub email: String,
    pub otp: String,
}

/// The body of a request to send the code again.
#[derive(Debug)]
pub struct ResendOtpPayload {
    pub email: String,
}

/// What the e-mail with a code is rendered from.
#[derive(Debug)]
pub struct OtpEmailTemplate<'a> {
    pub email: &'a str,
    pub otp: &'a str,
    pub expiry_minutes: u32,
}

} // verus!
