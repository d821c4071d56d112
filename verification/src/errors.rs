use vstd::prelude::*;
use vstd::string::StringExecFns;

verus! {

/// Which syntactic or range check a candidate account identity failed.
#[derive(Clone, Copy, Debug, PartialEq, Eq, Structural)]
pub enum IdentityFault {
    Empty,
    WrongLength,
    NonNumeric,
    BadPrefix,
    TooSmall,
    TooLarge,
}

/// Which identity field of a job carried a validation fault: the single
/// identity of an encrypt or decrypt job, or the old or new identity of a
/// resign job.
#[derive(Clone, Copy, Debug, PartialEq, Eq, Structural)]
pub enum IdRole {
    Single,
    Old,
    New,
}

/// Every failure the core can report.
#[derive(Clone, Copy, Debug, PartialEq, Eq, Structural)]
pub enum ErrorKind {
    /// An identity string failed validation, with the field and the reason.
    InvalidIdentity { role: IdRole, fault: IdentityFault },
    /// A resign job named the same identity twice.
    IdenticalIdentities,
    /// The input root does not exist.
    PathNotFound,
    /// The input root is a file, but batch mode needs a directory.
    NotADirectory,
    /// The collector found no file with a recognized extension.
    NoSupportedFiles,
    /// A file could not be read or written.
    IoFailure,
    /// A blob is too short to hold a nonce and a tag.
    MalformedInput,
    /// Tag verification failed: wrong identity, title or file name, or
    /// corrupted or non-ciphertext input.
    AuthenticationFailed,
    /// The run summary artifact could not be written.
    SummaryWriteFailure,
    /// The cipher refused the input (it exceeds the cipher's length limit).
    EncryptionFailed,
}

/// The text explaining an identity fault.
pub open spec fn fault_message(f: IdentityFault) -> Seq<char> {
    match f {
        IdentityFault::Empty => "SteamID cannot be empty"@,
        IdentityFault::WrongLength => "SteamID must be exactly 17 digits long"@,
        IdentityFault::NonNumeric => "SteamID must contain only numbers"@,
        IdentityFault::BadPrefix => "SteamID must start with 7656119 (Steam64 format)"@,
        IdentityFault::TooSmall => "SteamID appears to be invalid (too small for Steam64 format)"@,
        IdentityFault::TooLarge => "SteamID appears to be invalid (too large for Steam64 format)"@,
    }
}

/// The prefix naming the identity field a fault belongs to.
pub open spec fn role_prefix(role: IdRole) -> Seq<char> {
    match role {
        IdRole::Single => "Invalid SteamID: "@,
        IdRole::Old => "Invalid Old SteamID: "@,
        IdRole::New => "Invalid New SteamID: "@,
    }
}

/// The human-readable text of each error.
pub open spec fn error_message(e: ErrorKind) -> Seq<char> {
    match e {
        ErrorKind::InvalidIdentity { role, fault } => role_prefix(role) + fault_message(fault),
        ErrorKind::IdenticalIdentities => "Old and New SteamIDs cannot be the same"@,
        ErrorKind::PathNotFound => "Input path does not exist"@,
        ErrorKind::NotADirectory => "Input path must be a directory, not a file"@,
        ErrorKind::NoSupportedFiles => "No supported save files (.bin, .dat, .dat.backup) found in the directory"@,
        ErrorKind::IoFailure => "A file could not be read or written"@,
        ErrorKind::MalformedInput => "Input data too short"@,
        ErrorKind::AuthenticationFailed => "Decryption failed: Check if SteamID is correct"@,
        ErrorKind::SummaryWriteFailure => "Failed to write the run summary"@,
        ErrorKind::EncryptionFailed => "Encryption failed"@,
    }
}

impl IdentityFault {
    /// The text explaining this fault.
    pub fn text(&self) -> (r: &'static str)
        ensures
            r@ == fault_message(*self),
    {
        match self {
            IdentityFault::Empty => "SteamID cannot be empty",
            IdentityFault::WrongLength => "SteamID must be exactly 17 digits long",
            IdentityFault::NonNumeric => "SteamID must contain only numbers",
            IdentityFault::BadPrefix => "SteamID must start with 7656119 (Steam64 format)",
            IdentityFault::TooSmall => "SteamID appears to be invalid (too small for Steam64 format)",
            IdentityFault::TooLarge => "SteamID appears to be invalid (too large for Steam64 format)",
        }
    }
}

impl ErrorKind {
    /// The human-readable text of this error.
    pub fn message(&self) -> (r: String)
        ensures
            r@ == error_message(*self),
    {
        match self {
            ErrorKind::InvalidIdentity { role, fault } => {
                let mut m = match role {
                    IdRole::Single => String::from_str("Invalid SteamID: "),
                    IdRole::Old => String::from_str("Invalid Old SteamID: "),
                    IdRole::New => String::from_str("Invalid New SteamID: "),
                };
                m.append(fault.text());
                m
            },
            ErrorKind::IdenticalIdentities => String::from_str("Old and New SteamIDs cannot be the same"),
            ErrorKind::PathNotFound => String::from_str("Input path does not exist"),
            ErrorKind::NotADirectory => String::from_str("Input path must be a directory, not a file"),
            ErrorKind::NoSupportedFiles => String::from_str(
                "No supported save files (.bin, .dat, .dat.backup) found in the directory",
            ),
            ErrorKind::IoFailure => String::from_str("A file could not be read or written"),
            ErrorKind::MalformedInput => String::from_str("Input data too short"),
            ErrorKind::AuthenticationFailed => String::from_str(
                "Decryption failed: Check if SteamID is correct",
            ),
            ErrorKind::SummaryWriteFailure => String::from_str("Failed to write the run summary"),
            ErrorKind::EncryptionFailed => String::from_str("Encryption failed"),
        }
    }
}

} // verus!
