use vstd::prelude::*;

verus! {

/// Errors raised while driving one VPN session: configuration problems and
/// failures reported by the protocol engine, carrying the engine's return
/// code where one exists.
#[derive(Debug)]
pub enum OpenconnectError {
    EntrypointConfigError(String),
    SetupShutdownError(String),
    SetCookieError(i32),
    ObtainCookieError(i32),
    SetProtocolError(i32),
    SetReportOSError(i32),
    CmdPipeError(i32),
    SetProxyError(i32),
    MakeCstpError(i32),
    DisableDTLSError(i32),
    ParseUrlError(i32),
    SetupTunDeviceEror(i32),
    SetClientCertError(i32),
    SetMCACertError(i32),
    MainLoopError(i32),
    GetIpInfoError(i32),
    OtherError(String),
}

impl OpenconnectError {
    /// Field-by-field copy, fully specified (a derived `Clone` would say
    /// nothing about the result).
    pub fn duplicate(&self) -> (r: Self)
        ensures
            r == *self,
    {
        match self {
            OpenconnectError::EntrypointConfigError(s) => OpenconnectError::EntrypointConfigError(
                s.clone(),
            ),
            OpenconnectError::SetupShutdownError(s) => OpenconnectError::SetupShutdownError(
                s.clone(),
            ),
            OpenconnectError::SetCookieError(c) => OpenconnectError::SetCookieError(*c),
            OpenconnectError::ObtainCookieError(c) => OpenconnectError::ObtainCookieError(*c),
            OpenconnectError::SetProtocolError(c) => OpenconnectError::SetProtocolError(*c),
            OpenconnectError::SetReportOSError(c) => OpenconnectError::SetReportOSError(*c),
            OpenconnectError::CmdPipeError(c) => OpenconnectError::CmdPipeError(*c),
            OpenconnectError::SetProxyError(c) => OpenconnectError::SetProxyError(*c),
            OpenconnectError::MakeCstpError(c) => OpenconnectError::MakeCstpError(*c),
            OpenconnectError::DisableDTLSError(c) => OpenconnectError::DisableDTLSError(*c),
            OpenconnectError::ParseUrlError(c) => OpenconnectError::ParseUrlError(*c),
            OpenconnectError::SetupTunDeviceEror(c) => OpenconnectError::SetupTunDeviceEror(*c),
            OpenconnectError::SetClientCertError(c) => OpenconnectError::SetClientCertError(*c),
            OpenconnectError::SetMCACertError(c) => OpenconnectError::SetMCACertError(*c),
            OpenconnectError::MainLoopError(c) => OpenconnectError::MainLoopError(*c),
            OpenconnectError::GetIpInfoError(c) => OpenconnectError::GetIpInfoError(*c),
            OpenconnectError::OtherError(s) => OpenconnectError::OtherError(s.clone()),
        }
    }
}

pub type OpenconnectResult<T> = Result<T, OpenconnectError>;

} // verus!
