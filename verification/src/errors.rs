use vstd::prelude::*;

verus! {

/// Failures of the session registry.
#[derive(Clone, Copy, PartialEq, Eq, Structural, Debug)]
pub enum SessionInstanceError {
    DefaultSessionNotSet,
    SessionNotFoundInConfig,
    SessionNotFoundInSystem,
    UnknownProtocol,
    LogoutCommandNotSet,
    SessionExists,
}

impl SessionInstanceError {
    pub open spec fn spec_description(self) -> Seq<char> {
        match self {
            SessionInstanceError::DefaultSessionNotSet => {
                "Default session is not set or no session is specified."@
            },
            SessionInstanceError::SessionNotFoundInConfig => {
                "Specific session is not found in config."@
            },
            SessionInstanceError::SessionNotFoundInSystem => {
                "Specific session is not found in system."@
            },
            SessionInstanceError::UnknownProtocol => {
                "Session Protocol is unknown or not supported."@
            },
            SessionInstanceError::LogoutCommandNotSet => "Logout command is not set"@,
            SessionInstanceError::SessionExists => "Specific session already exists"@,
        }
    }

    pub fn get_description(&self) -> (r: &'static str)
        ensures
            r@ == self.spec_description(),
    {
        match self {
            SessionInstanceError::DefaultSessionNotSet => {
                "Default session is not set or no session is specified."
            },
            SessionInstanceError::SessionNotFoundInConfig => {
                "Specific session is not found in config."
            },
            SessionInstanceError::SessionNotFoundInSystem => {
                "Specific session is not found in system."
            },
            SessionInstanceError::UnknownProtocol => {
                "Session Protocol is unknown or not supported."
            },
            SessionInstanceError::LogoutCommandNotSet => "Logout command is not set",
            SessionInstanceError::SessionExists => "Specific session already exists",
        }
    }
}

/// Failures of the login-manager coordinator.
#[derive(Clone, Copy, PartialEq, Eq, Structural, Debug)]
pub enum LoginManagerInstanceError {
    UnknownCurrentManager,
    UnsupportedManager,
    ManagerAlreadyDefault,
    InvalidParameters,
}

impl LoginManagerInstanceError {
    pub open spec fn spec_description(self) -> Seq<char> {
        match self {
            LoginManagerInstanceError::UnknownCurrentManager => {
                "Default Manager is unsupported or it is not set."@
            },
            LoginManagerInstanceError::UnsupportedManager => {
                "Specific Manager is unsupported."@
            },
            LoginManagerInstanceError::ManagerAlreadyDefault => {
                "Specific manager is already current login manager."@
            },
            LoginManagerInstanceError::InvalidParameters => {
                "Invalid parameters for this operation."@
            },
        }
    }

    pub fn get_description(&self) -> (r: &'static str)
        ensures
            r@ == self.spec_description(),
    {
        match self {
            LoginManagerInstanceError::UnknownCurrentManager => {
                "Default Manager is unsupported or it is not set."
            },
            LoginManagerInstanceError::UnsupportedManager => "Specific Manager is unsupported.",
            LoginManagerInstanceError::ManagerAlreadyDefault => {
                "Specific manager is already current login manager."
            },
            LoginManagerInstanceError::InvalidParameters => {
                "Invalid parameters for this operation."
            },
        }
    }
}

/// Failures of the advisory-lock primitive.
#[derive(Clone, Copy, PartialEq, Eq, Structural, Debug)]
pub enum LockError {
    BadFileDescriptor,
    InterruptError,
    InvalidOperation,
    NoMemoryForLock,
    FileIsLocked,
    UnknownError,
}

// Linux errno values for the lock syscall's failure modes, as libc defines
// them on this platform family.
pub const ERRNO_EBADF: i32 = 9;

pub const ERRNO_EINTR: i32 = 4;

pub const ERRNO_EINVAL: i32 = 22;

pub const ERRNO_ENOLCK: i32 = 37;

pub const ERRNO_EWOULDBLOCK: i32 = 11;

impl LockError {
    pub open spec fn spec_from_errno(errno: i32) -> LockError {
        if errno == ERRNO_EBADF {
            LockError::BadFileDescriptor
        } else if errno == ERRNO_EINTR {
            LockError::InterruptError
        } else if errno == ERRNO_EINVAL {
            LockError::InvalidOperation
        } else if errno == ERRNO_ENOLCK {
            LockError::NoMemoryForLock
        } else if errno == ERRNO_EWOULDBLOCK {
            LockError::FileIsLocked
        } else {
            LockError::UnknownError
        }
    }

    /// Classify the errno a failed lock acquisition reported.
    pub fn from(errno: i32) -> (r: LockError)
        ensures
            r == LockError::spec_from_errno(errno),
    {
        if errno == ERRNO_EBADF {
            LockError::BadFileDescriptor
        } else if errno == ERRNO_EINTR {
            LockError::InterruptError
        } else if errno == ERRNO_EINVAL {
            LockError::InvalidOperation
        } else if errno == ERRNO_ENOLCK {
            LockError::NoMemoryForLock
        } else if errno == ERRNO_EWOULDBLOCK {
            LockError::FileIsLocked
        } else {
            LockError::UnknownError
        }
    }

    pub open spec fn spec_description(self) -> Seq<char> {
        match self {
            LockError::BadFileDescriptor => "Provided fd is not an open file descriptor."@,
            LockError::InterruptError => {
                "While waiting to acquire a lock, the call was interrupted by delivery of a signal caught by a handler."@
            },
            LockError::InvalidOperation => "Operation is invalid."@,
            LockError::NoMemoryForLock => {
                "The kernel ran out of memory for allocating lock records."@
            },
            LockError::FileIsLocked => "The file is locked and the LOCK_NB flag was selected."@,
            LockError::UnknownError => "Unknown Error"@,
        }
    }

    pub fn get_description(&self) -> (r: &'static str)
        ensures
            r@ == self.spec_description(),
    {
        match self {
            LockError::BadFileDescriptor => "Provided fd is not an open file descriptor.",
            LockError::InterruptError => {
                "While waiting to acquire a lock, the call was interrupted by delivery of a signal caught by a handler."
            },
            LockError::InvalidOperation => "Operation is invalid.",
            LockError::NoMemoryForLock => "The kernel ran out of memory for allocating lock records.",
            LockError::FileIsLocked => "The file is locked and the LOCK_NB flag was selected.",
            LockError::UnknownError => "Unknown Error",
        }
    }
}

/// A failure of a coordinator operation: either side of the component
/// boundary may object.
#[derive(Clone, Copy, PartialEq, Eq, Structural, Debug)]
pub enum ControlError {
    Session(SessionInstanceError),
    Login(LoginManagerInstanceError),
}

impl ControlError {
    pub fn get_description(&self) -> (r: &'static str)
        ensures
            self matches ControlError::Session(e) ==> r@ == e.spec_description(),
            self matches ControlError::Login(e) ==> r@ == e.spec_description(),
    {
        match self {
            ControlError::Session(e) => e.get_description(),
            ControlError::Login(e) => e.get_description(),
        }
    }
}

} // verus!
