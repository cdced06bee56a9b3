use vstd::prelude::*;

verus! {

/// The software-token modes the engine can run for one-time passwords.
#[derive(Debug, Clone, Copy, PartialEq, Eq, Structural)]
pub enum TokenMode {
    TOTP,
    HOTP,
    OIDC,
}

/// A software token handed to the engine: its mode and, when one is
/// needed, its secret or token string.
#[derive(Debug)]
pub struct Token {
    pub mode: TokenMode,
    pub value: Option<String>,
}

impl TokenMode {
    /// Only the OIDC token mode is supported; the one-time-password modes
    /// are refused before the engine is involved.
    pub fn is_supported(&self) -> (r: bool)
        ensures
            r == (*self is OIDC),
    {
        match *self {
            TokenMode::OIDC => true,
            TokenMode::TOTP => false,
            TokenMode::HOTP => false,
        }
    }
}

} // verus!
