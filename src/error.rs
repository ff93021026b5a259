//! Status codes that a receiver reports, and the errors of a control request.
use vstd::prelude::*;

verus! {

/// Relied on as an opaque value: a JSON error of serde_json.
#[verifier::external_type_specification]
#[verifier::external_body]
pub struct ExJsonError(serde_json::Error);

/// Relied on as an opaque value: an I/O error of std.
#[verifier::external_type_specification]
#[verifier::external_body]
pub struct ExIoError(std::io::Error);

/// The status a receiver reports in the `response_code` field of a reply.
#[derive(Clone, Copy, Debug, PartialEq, Eq, Structural)]
pub enum ResponseCode {
    Successful,
    Initializing,
    InternalError,
    InvalidRequest,
    InvalidParameter,
    Guarded,
    TimeOut,
    FirmwareUpdating,
    AccessError,
    OtherErrors,
    WrongUserName,
    WrongPassword,
    AccountExpired,
    AccountDisconnected,
    AccountLimitReached,
    ServerMaintenance,
    InvalidAccount,
    LicenseError,
    ReadOnlyMode,
    MaxStations,
    AccessDenied,
    NeedSpecifyPlaylist,
    NeedCreatePlaylist,
    SimultaneousLoginsLimit,
    LinkingInProgress,
    UnlinkingInProgress,
}

/// The status that a numeric code stands for; unknown codes count as other errors.
pub open spec fn response_code_for(code: u32) -> ResponseCode {
    match code {
        0 => ResponseCode::Successful,
        1 => ResponseCode::Initializing,
        2 => ResponseCode::InternalError,
        3 => ResponseCode::InvalidRequest,
        4 => ResponseCode::InvalidParameter,
        5 => ResponseCode::Guarded,
        6 => ResponseCode::TimeOut,
        99 => ResponseCode::FirmwareUpdating,
        100 => ResponseCode::AccessError,
        101 => ResponseCode::OtherErrors,
        102 => ResponseCode::WrongUserName,
        103 => ResponseCode::WrongPassword,
        104 => ResponseCode::AccountExpired,
        105 => ResponseCode::AccountDisconnected,
        106 => ResponseCode::AccountLimitReached,
        107 => ResponseCode::ServerMaintenance,
        108 => ResponseCode::InvalidAccount,
        109 => ResponseCode::LicenseError,
        110 => ResponseCode::ReadOnlyMode,
        111 => ResponseCode::MaxStations,
        112 => ResponseCode::AccessDenied,
        113 => ResponseCode::NeedSpecifyPlaylist,
        114 => ResponseCode::NeedCreatePlaylist,
        115 => ResponseCode::SimultaneousLoginsLimit,
        200 => ResponseCode::LinkingInProgress,
        201 => ResponseCode::UnlinkingInProgress,
        _ => ResponseCode::OtherErrors,
    }
}

impl ResponseCode {
    pub open spec fn code_spec(&self) -> u32 {
        match self {
            ResponseCode::Successful => 0,
            ResponseCode::Initializing => 1,
            ResponseCode::InternalError => 2,
            ResponseCode::InvalidRequest => 3,
            ResponseCode::InvalidParameter => 4,
            ResponseCode::Guarded => 5,
            ResponseCode::TimeOut => 6,
            ResponseCode::FirmwareUpdating => 99,
            ResponseCode::AccessError => 100,
            ResponseCode::OtherErrors => 101,
            ResponseCode::WrongUserName => 102,
            ResponseCode::WrongPassword => 103,
            ResponseCode::AccountExpired => 104,
            ResponseCode::AccountDisconnected => 105,
            ResponseCode::AccountLimitReached => 106,
            ResponseCode::ServerMaintenance => 107,
            ResponseCode::InvalidAccount => 108,
            ResponseCode::LicenseError => 109,
            ResponseCode::ReadOnlyMode => 110,
            ResponseCode::MaxStations => 111,
            ResponseCode::AccessDenied => 112,
            ResponseCode::NeedSpecifyPlaylist => 113,
            ResponseCode::NeedCreatePlaylist => 114,
            ResponseCode::SimultaneousLoginsLimit => 115,
            ResponseCode::LinkingInProgress => 200,
            ResponseCode::UnlinkingInProgress => 201,
        }
    }

    pub open spec fn description_spec(&self) -> Seq<char> {
        match self {
            ResponseCode::Successful => "Successful"@,
            ResponseCode::Initializing => "Initializing"@,
            ResponseCode::InternalError => "Internal Error"@,
            ResponseCode::InvalidRequest => "Invalid Request"@,
            ResponseCode::InvalidParameter => "Invalid Parameter"@,
            ResponseCode::Guarded => "Guarded (Operation not allowed)"@,
            ResponseCode::TimeOut => "Request Timed Out"@,
            ResponseCode::FirmwareUpdating => "Firmware Updating"@,
            ResponseCode::AccessError => "Access Error"@,
            ResponseCode::OtherErrors => "Other Error"@,
            ResponseCode::WrongUserName => "Wrong Username"@,
            ResponseCode::WrongPassword => "Wrong Password"@,
            ResponseCode::AccountExpired => "Account Expired"@,
            ResponseCode::AccountDisconnected => "Account Disconnected"@,
            ResponseCode::AccountLimitReached => "Account Limit Reached"@,
            ResponseCode::ServerMaintenance => "Server Under Maintenance"@,
            ResponseCode::InvalidAccount => "Invalid Account"@,
            ResponseCode::LicenseError => "License Error"@,
            ResponseCode::ReadOnlyMode => "Read-Only Mode"@,
            ResponseCode::MaxStations => "Maximum Stations Reached"@,
            ResponseCode::AccessDenied => "Access Denied"@,
            ResponseCode::NeedSpecifyPlaylist => "Playlist Must Be Specified"@,
            ResponseCode::NeedCreatePlaylist => "Playlist Must Be Created"@,
            ResponseCode::SimultaneousLoginsLimit => "Simultaneous Logins Limit Reached"@,
            ResponseCode::LinkingInProgress => "Linking In Progress"@,
            ResponseCode::UnlinkingInProgress => "Unlinking In Progress"@,
        }
    }

    /// The numeric code of this status.
    pub fn code(&self) -> (r: u32)
        ensures
            r == self.code_spec(),
    {
        match self {
            ResponseCode::Successful => 0,
            ResponseCode::Initializing => 1,
            ResponseCode::InternalError => 2,
            ResponseCode::InvalidRequest => 3,
            ResponseCode::InvalidParameter => 4,
            ResponseCode::Guarded => 5,
            ResponseCode::TimeOut => 6,
            ResponseCode::FirmwareUpdating => 99,
            ResponseCode::AccessError => 100,
            ResponseCode::OtherErrors => 101,
            ResponseCode::WrongUserName => 102,
            ResponseCode::WrongPassword => 103,
            ResponseCode::AccountExpired => 104,
            ResponseCode::AccountDisconnected => 105,
            ResponseCode::AccountLimitReached => 106,
            ResponseCode::ServerMaintenance => 107,
            ResponseCode::InvalidAccount => 108,
            ResponseCode::LicenseError => 109,
            ResponseCode::ReadOnlyMode => 110,
            ResponseCode::MaxStations => 111,
            ResponseCode::AccessDenied => 112,
            ResponseCode::NeedSpecifyPlaylist => 113,
            ResponseCode::NeedCreatePlaylist => 114,
            ResponseCode::SimultaneousLoginsLimit => 115,
            ResponseCode::LinkingInProgress => 200,
            ResponseCode::UnlinkingInProgress => 201,
        }
    }

    /// A human-readable description of this status.
    pub fn description(&self) -> (r: &'static str)
        ensures
            r@ == self.description_spec(),
    {
        match self {
            ResponseCode::Successful => "Successful",
            ResponseCode::Initializing => "Initializing",
            ResponseCode::InternalError => "Internal Error",
            ResponseCode::InvalidRequest => "Invalid Request",
            ResponseCode::InvalidParameter => "Invalid Parameter",
            ResponseCode::Guarded => "Guarded (Operation not allowed)",
            ResponseCode::TimeOut => "Request Timed Out",
            ResponseCode::FirmwareUpdating => "Firmware Updating",
            ResponseCode::AccessError => "Access Error",
            ResponseCode::OtherErrors => "Other Error",
            ResponseCode::WrongUserName => "Wrong Username",
            ResponseCode::WrongPassword => "Wrong Password",
            ResponseCode::AccountExpired => "Account Expired",
            ResponseCode::AccountDisconnected => "Account Disconnected",
            ResponseCode::AccountLimitReached => "Account Limit Reached",
            ResponseCode::ServerMaintenance => "Server Under Maintenance",
            ResponseCode::InvalidAccount => "Invalid Account",
            ResponseCode::LicenseError => "License Error",
            ResponseCode::ReadOnlyMode => "Read-Only Mode",
            ResponseCode::MaxStations => "Maximum Stations Reached",
            ResponseCode::AccessDenied => "Access Denied",
            ResponseCode::NeedSpecifyPlaylist => "Playlist Must Be Specified",
            ResponseCode::NeedCreatePlaylist => "Playlist Must Be Created",
            ResponseCode::SimultaneousLoginsLimit => "Simultaneous Logins Limit Reached",
            ResponseCode::LinkingInProgress => "Linking In Progress",
            ResponseCode::UnlinkingInProgress => "Unlinking In Progress",
        }
    }
}

impl From<u32> for ResponseCode {
    fn from(code: u32) -> (r: ResponseCode)
        ensures
            r == response_code_for(code),
    {
        match code {
            0 => ResponseCode::Successful,
            1 => ResponseCode::Initializing,
            2 => ResponseCode::InternalError,
            3 => ResponseCode::InvalidRequest,
            4 => ResponseCode::InvalidParameter,
            5 => ResponseCode::Guarded,
            6 => ResponseCode::TimeOut,
            99 => ResponseCode::FirmwareUpdating,
            100 => ResponseCode::AccessError,
            101 => ResponseCode::OtherErrors,
            102 => ResponseCode::WrongUserName,
            103 => ResponseCode::WrongPassword,
            104 => ResponseCode::AccountExpired,
            105 => ResponseCode::AccountDisconnected,
            106 => ResponseCode::AccountLimitReached,
            107 => ResponseCode::ServerMaintenance,
            108 => ResponseCode::InvalidAccount,
            109 => ResponseCode::LicenseError,
            110 => ResponseCode::ReadOnlyMode,
            111 => ResponseCode::MaxStations,
            112 => ResponseCode::AccessDenied,
            113 => ResponseCode::NeedSpecifyPlaylist,
            114 => ResponseCode::NeedCreatePlaylist,
            115 => ResponseCode::SimultaneousLoginsLimit,
            200 => ResponseCode::LinkingInProgress,
            201 => ResponseCode::UnlinkingInProgress,
            _ => ResponseCode::OtherErrors,
        }
    }
}

impl vstd::std_specs::convert::FromSpecImpl<u32> for ResponseCode {
    open spec fn obeys_from_spec() -> bool {
        true
    }

    open spec fn from_spec(code: u32) -> ResponseCode {
        response_code_for(code)
    }
}

/// Why a control request failed.
#[derive(Debug)]
pub enum ApiError {
    /// The receiver answered with a status other than success.
    ResponseError(ResponseCode),
    /// The request could not be carried out or its reply not read.
    InternalError(InternalError),
}

/// A failure on this side of a control request.
#[derive(Debug)]
pub enum InternalError {
    DeserializationError(serde_json::Error),
    IoError(std::io::Error),
}

impl From<InternalError> for ApiError {
    fn from(err: InternalError) -> (r: ApiError)
        ensures
            r == ApiError::InternalError(err),
    {
        ApiError::InternalError(err)
    }
}

impl vstd::std_specs::convert::FromSpecImpl<InternalError> for ApiError {
    open spec fn obeys_from_spec() -> bool {
        true
    }

    open spec fn from_spec(err: InternalError) -> ApiError {
        ApiError::InternalError(err)
    }
}

} // verus!
