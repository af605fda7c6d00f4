//! The error taxonomy of the updater, its process exit codes and its messages.

use crate::text::{decimal, hex, spec_decimal, spec_hex};
use vstd::prelude::*;
use vstd::string::StringExecFns;

verus! {

/// The platforms that the updater runs on, as far as its messages differ.
#[derive(Debug, PartialEq, Eq, Structural, Clone, Copy)]
pub enum Platform {
    Linux,
    Windows,
    MacOs,
}

/// Everything that can go wrong in the updater. Paths, causes and other texts
/// are carried as strings, so that an error is a plain value.
#[derive(Debug)]
pub enum Error {
    /// No configuration path was given and none could be derived from the
    /// environment of the platform.
    NoPossibleConfigPath(Platform),
    /// The configuration path has no parent directory.
    BadConfigPath(String),
    /// Creating a directory (path, cause) failed.
    Mkdir(String, String),
    /// The operating system denied an operation (what was attempted, cause).
    PermissionDenied(String, String),
    /// Writing to standard output failed.
    Stdout(String),
    /// Reading from standard input failed.
    Stdin(String),
    /// An I/O operation failed for another reason (what was attempted, cause).
    UnknownIo(String, String),
    /// Writing JSON failed.
    Serialize(String),
    /// Reading JSON failed.
    Deserialize(String),
    /// The request for the manifest failed in transport.
    ManifestRequest(String),
    /// The request for the manifest was answered with a status (code, reason
    /// phrase) that is no success.
    ManifestRequestStatus(u16, String),
    /// The manifest does not have the expected shape.
    BadManifestFormat(String),
    /// Reading a file (path, cause) failed.
    FileRead(String, String),
    /// Writing a file (path, cause) failed.
    FileWrite(String, String),
    /// The request for an asset failed in transport.
    DownloadRequest(String),
    /// The request for an asset was answered with a status (code, reason phrase)
    /// that is no success.
    DownloadRequestStatus(u16, String),
    /// Storing a response body (path, cause) failed.
    CopyIntoFile(String, String),
    /// A bzip2 stream (what it belongs to, cause) could not be decoded.
    Decode(String, String),
    /// A delta does not start with the magic constant.
    BadPatchVersion,
    /// A length in a delta is negative.
    BadPatchSize,
    /// Seeking in a file (path, cause) failed.
    Seek(String, String),
    /// A control record of a delta would write past the target size; the number
    /// tells whether its copy block (0) or its insert block (1) would.
    PatchSanityCheckFail(u8),
    /// Renaming a file (from, to) failed.
    FileRename(String, String),
    /// A path that must be a directory is something else.
    NotDir(String),
    /// Removing a file (path, cause) failed.
    RemoveFile(String, String),
    /// A file that must exist after an update is missing.
    MissingFile(String),
    /// Setting permissions on a file (path, cause) failed.
    PermissionsSet(String, String),
    /// A required command line argument is absent.
    MissingCommandLineArg(String),
    /// Reading a password failed.
    PasswordRead(String),
    /// The HTTP client could not be created.
    HttpClientCreate(String),
    /// An HTTP POST failed.
    Post(String),
    /// A login response does not have the expected shape.
    BadLoginResponse(String),
    /// A login response carries an unknown `success` value.
    UnexpectedSuccessValue(String),
    /// Starting the game process failed.
    ThreadSpawn(String),
    /// Waiting for a game process failed.
    ThreadJoin(String),
    /// Killing a game process (pid, cause) failed.
    ProcessKill(u32, String),
    /// The digest of a file (path, expected digest, actual digest) differs from the
    /// one that the manifest names.
    HashMismatch(String, [u8; 20], [u8; 20]),
    /// Connecting to the session's password store failed.
    SessionStoreConnect(String),
    /// Unlocking a password in the session's store failed.
    PasswordUnlock(String),
    /// Getting a password from the secret store failed.
    PasswordGet(String),
    /// A password from the session's store is no valid text.
    PasswordUtf8(String),
    /// Saving a password in the session's store failed.
    PasswordSave(String),
    /// Deleting an item of the secret store failed.
    DeleteSecretItem(String),
}

/// The mathematical value of an [`Error`]: the same variants over sequences.
pub enum ErrorView {
    NoPossibleConfigPath(Platform),
    BadConfigPath(Seq<char>),
    Mkdir(Seq<char>, Seq<char>),
    PermissionDenied(Seq<char>, Seq<char>),
    Stdout(Seq<char>),
    Stdin(Seq<char>),
    UnknownIo(Seq<char>, Seq<char>),
    Serialize(Seq<char>),
    Deserialize(Seq<char>),
    ManifestRequest(Seq<char>),
    ManifestRequestStatus(u16, Seq<char>),
    BadManifestFormat(Seq<char>),
    FileRead(Seq<char>, Seq<char>),
    FileWrite(Seq<char>, Seq<char>),
    DownloadRequest(Seq<char>),
    DownloadRequestStatus(u16, Seq<char>),
    CopyIntoFile(Seq<char>, Seq<char>),
    Decode(Seq<char>, Seq<char>),
    BadPatchVersion,
    BadPatchSize,
    Seek(Seq<char>, Seq<char>),
    PatchSanityCheckFail(u8),
    FileRename(Seq<char>, Seq<char>),
    NotDir(Seq<char>),
    RemoveFile(Seq<char>, Seq<char>),
    MissingFile(Seq<char>),
    PermissionsSet(Seq<char>, Seq<char>),
    MissingCommandLineArg(Seq<char>),
    PasswordRead(Seq<char>),
    HttpClientCreate(Seq<char>),
    Post(Seq<char>),
    BadLoginResponse(Seq<char>),
    UnexpectedSuccessValue(Seq<char>),
    ThreadSpawn(Seq<char>),
    ThreadJoin(Seq<char>),
    ProcessKill(u32, Seq<char>),
    HashMismatch(Seq<char>, Seq<u8>, Seq<u8>),
    SessionStoreConnect(Seq<char>),
    PasswordUnlock(Seq<char>),
    PasswordGet(Seq<char>),
    PasswordUtf8(Seq<char>),
    PasswordSave(Seq<char>),
    DeleteSecretItem(Seq<char>),
}

impl View for Error {
    type V = ErrorView;

    open spec fn view(&self) -> ErrorView {
        match *self {
            Error::NoPossibleConfigPath(platform) => ErrorView::NoPossibleConfigPath(platform),
            Error::BadConfigPath(path) => ErrorView::BadConfigPath(path@),
            Error::Mkdir(path, cause) => ErrorView::Mkdir(path@, cause@),
            Error::PermissionDenied(doing, cause) => ErrorView::PermissionDenied(doing@, cause@),
            Error::Stdout(cause) => ErrorView::Stdout(cause@),
            Error::Stdin(cause) => ErrorView::Stdin(cause@),
            Error::UnknownIo(doing, cause) => ErrorView::UnknownIo(doing@, cause@),
            Error::Serialize(cause) => ErrorView::Serialize(cause@),
            Error::Deserialize(cause) => ErrorView::Deserialize(cause@),
            Error::ManifestRequest(cause) => ErrorView::ManifestRequest(cause@),
            Error::ManifestRequestStatus(status, reason) => ErrorView::ManifestRequestStatus(
                status,
                reason@,
            ),
            Error::BadManifestFormat(what) => ErrorView::BadManifestFormat(what@),
            Error::FileRead(path, cause) => ErrorView::FileRead(path@, cause@),
            Error::FileWrite(path, cause) => ErrorView::FileWrite(path@, cause@),
            Error::DownloadRequest(cause) => ErrorView::DownloadRequest(cause@),
            Error::DownloadRequestStatus(status, reason) => ErrorView::DownloadRequestStatus(
                status,
                reason@,
            ),
            Error::CopyIntoFile(path, cause) => ErrorView::CopyIntoFile(path@, cause@),
            Error::Decode(what, cause) => ErrorView::Decode(what@, cause@),
            Error::BadPatchVersion => ErrorView::BadPatchVersion,
            Error::BadPatchSize => ErrorView::BadPatchSize,
            Error::Seek(path, cause) => ErrorView::Seek(path@, cause@),
            Error::PatchSanityCheckFail(check) => ErrorView::PatchSanityCheckFail(check),
            Error::FileRename(from, to) => ErrorView::FileRename(from@, to@),
            Error::NotDir(path) => ErrorView::NotDir(path@),
            Error::RemoveFile(path, cause) => ErrorView::RemoveFile(path@, cause@),
            Error::MissingFile(name) => ErrorView::MissingFile(name@),
            Error::PermissionsSet(path, cause) => ErrorView::PermissionsSet(path@, cause@),
            Error::MissingCommandLineArg(name) => ErrorView::MissingCommandLineArg(name@),
            Error::PasswordRead(cause) => ErrorView::PasswordRead(cause@),
            Error::HttpClientCreate(cause) => ErrorView::HttpClientCreate(cause@),
            Error::Post(cause) => ErrorView::Post(cause@),
            Error::BadLoginResponse(what) => ErrorView::BadLoginResponse(what@),
            Error::UnexpectedSuccessValue(value) => ErrorView::UnexpectedSuccessValue(value@),
            Error::ThreadSpawn(cause) => ErrorView::ThreadSpawn(cause@),
            Error::ThreadJoin(cause) => ErrorView::ThreadJoin(cause@),
            Error::ProcessKill(pid, cause) => ErrorView::ProcessKill(pid, cause@),
            Error::HashMismatch(path, expected, actual) => ErrorView::HashMismatch(
                path@,
                expected@,
                actual@,
            ),
            Error::SessionStoreConnect(cause) => ErrorView::SessionStoreConnect(cause@),
            Error::PasswordUnlock(cause) => ErrorView::PasswordUnlock(cause@),
            Error::PasswordGet(cause) => ErrorView::PasswordGet(cause@),
            Error::PasswordUtf8(cause) => ErrorView::PasswordUtf8(cause@),
            Error::PasswordSave(cause) => ErrorView::PasswordSave(cause@),
            Error::DeleteSecretItem(cause) => ErrorView::DeleteSecretItem(cause@),
        }
    }
}

/// The mathematical value of a result whose error is an [`Error`].
pub open spec fn result_view<T: View>(r: Result<T, Error>) -> Result<T::V, ErrorView> {
    match r {
        Ok(value) => Ok(value@),
        Err(e) => Err(e@),
    }
}

/// The process exit code that stands for each kind of error.
pub open spec fn spec_return_code(e: ErrorView) -> int {
    match e {
        ErrorView::NoPossibleConfigPath(_) => 1,
        ErrorView::BadConfigPath(_) => 2,
        ErrorView::Mkdir(_, _) => 3,
        ErrorView::PermissionDenied(_, _) => 4,
        ErrorView::Stdout(_) => 5,
        ErrorView::Stdin(_) => 6,
        ErrorView::UnknownIo(_, _) => 7,
        ErrorView::Serialize(_) => 8,
        ErrorView::Deserialize(_) => 9,
        ErrorView::ManifestRequest(_) => 10,
        ErrorView::ManifestRequestStatus(_, _) => 11,
        ErrorView::BadManifestFormat(_) => 12,
        ErrorView::FileRead(_, _) => 13,
        ErrorView::FileWrite(_, _) => 14,
        ErrorView::DownloadRequest(_) => 15,
        ErrorView::DownloadRequestStatus(_, _) => 16,
        ErrorView::CopyIntoFile(_, _) => 17,
        ErrorView::Decode(_, _) => 18,
        ErrorView::BadPatchVersion => 19,
        ErrorView::BadPatchSize => 20,
        ErrorView::Seek(_, _) => 21,
        ErrorView::PatchSanityCheckFail(_) => 22,
        ErrorView::FileRename(_, _) => 23,
        ErrorView::NotDir(_) => 24,
        ErrorView::RemoveFile(_, _) => 25,
        ErrorView::MissingFile(_) => 26,
        ErrorView::PermissionsSet(_, _) => 27,
        ErrorView::MissingCommandLineArg(_) => 28,
        ErrorView::PasswordRead(_) => 29,
        ErrorView::HttpClientCreate(_) => 30,
        ErrorView::Post(_) => 31,
        ErrorView::BadLoginResponse(_) => 32,
        ErrorView::UnexpectedSuccessValue(_) => 33,
        ErrorView::ThreadSpawn(_) => 34,
        ErrorView::ThreadJoin(_) => 35,
        ErrorView::ProcessKill(_, _) => 36,
        ErrorView::HashMismatch(_, _, _) => 37,
        ErrorView::SessionStoreConnect(_) => 38,
        ErrorView::PasswordUnlock(_) => 39,
        ErrorView::PasswordGet(_) => 40,
        ErrorView::PasswordUtf8(_) => 41,
        ErrorView::PasswordSave(_) => 42,
        ErrorView::DeleteSecretItem(_) => 43,
    }
}

/// The text for a configuration path that could not be derived: it names the
/// environment variables that the platform looks at.
pub open spec fn no_config_path_message(platform: Platform) -> Seq<char> {
    match platform {
        Platform::Linux => "No config path was given, and the $XDG_CONFIG_HOME and $HOME environment variables are both unset or empty"@,
        Platform::Windows => "No config path was given, and the %APPDATA% environment variable is unset or empty"@,
        Platform::MacOs => "No config path was given, and the $HOME environment variable is unset or empty"@,
    }
}

/// The text that tells a person what went wrong. A status is shown as its code
/// and its reason phrase; a digest mismatch shows the expected and the actual
/// digest, each as 40 hexadecimal digits.
pub open spec fn spec_message(e: ErrorView) -> Seq<char> {
    match e {
        ErrorView::NoPossibleConfigPath(platform) => no_config_path_message(platform),
        ErrorView::BadConfigPath(path) => "Bad config file path specified: "@ + path,
        ErrorView::Mkdir(path, cause) => "`mkdir -p "@ + path + "` failed:\n\t"@ + cause,
        ErrorView::PermissionDenied(doing, cause) => "Permission denied while "@
            + doing
            + ":\n\t"@
            + cause,
        ErrorView::Stdout(cause) => "stdout error:\n\t"@ + cause,
        ErrorView::Stdin(cause) => "stdin error:\n\t"@ + cause,
        ErrorView::UnknownIo(doing, cause) => "Unknown I/O error while "@
            + doing
            + ":\n\t"@
            + cause,
        ErrorView::Serialize(cause) => "Failed to write JSON:\n\t"@ + cause,
        ErrorView::Deserialize(cause) => "Failed to read JSON:\n\t"@ + cause,
        ErrorView::ManifestRequest(cause) => "Error requesting manifest:\n\t"@ + cause,
        ErrorView::ManifestRequestStatus(status, reason) => "Bad status code after requesting manifest:\n\t"@
            + spec_decimal(status as nat)
            + " "@
            + reason,
        ErrorView::BadManifestFormat(what) => "Bad manifest format:\n\t"@ + what,
        ErrorView::FileRead(path, cause) => "Failed to read from "@ + path + ":\n\t"@ + cause,
        ErrorView::FileWrite(path, cause) => "Failed to write to "@ + path + ":\n\t"@ + cause,
        ErrorView::DownloadRequest(cause) => "Error requesting download: "@ + cause,
        ErrorView::DownloadRequestStatus(status, reason) => "Bad status code after requesting download: "@
            + spec_decimal(status as nat)
            + " "@
            + reason,
        ErrorView::CopyIntoFile(path, cause) => "Failure copying HTTP-downloaded data into "@
            + path
            + ":\n\t"@
            + cause,
        ErrorView::Decode(what, cause) => "Error decoding bzip2 in "@ + what + ":\n\t"@ + cause,
        ErrorView::BadPatchVersion => "Unable to determine patch's version, or patch is invalid"@,
        ErrorView::BadPatchSize => "Unable to determine patch's size, or patch is invalid"@,
        ErrorView::Seek(path, cause) => "Error while seeking through file "@
            + path
            + ":\n\t"@
            + cause,
        ErrorView::PatchSanityCheckFail(check) => "During patching, sanity check #"@
            + spec_decimal(check as nat)
            + " failed"@,
        ErrorView::FileRename(from, to) => "Error renaming file from "@ + from + " to "@ + to,
        ErrorView::NotDir(path) => path + " is not a directory"@,
        ErrorView::RemoveFile(path, cause) => "Error removing file "@ + path + ":\n\t"@ + cause,
        ErrorView::MissingFile(name) => "Expected \""@ + name + "\" file to exist"@,
        ErrorView::PermissionsSet(path, cause) => "Failure to set permissions on file "@
            + path
            + ":\n\t"@
            + cause,
        ErrorView::MissingCommandLineArg(name) => "Expected the "@
            + name
            + " command line argument to be present"@,
        ErrorView::PasswordRead(cause) => "Error reading password:\n\t"@ + cause,
        ErrorView::HttpClientCreate(cause) => "Error creating HTTP client:\n\t"@ + cause,
        ErrorView::Post(cause) => "Error sending HTTP POST:\n\t"@ + cause,
        ErrorView::BadLoginResponse(what) => "Bad login response:\n\t"@ + what,
        ErrorView::UnexpectedSuccessValue(value) => "Unexpected \"success\" value: "@ + value,
        ErrorView::ThreadSpawn(cause) => "Error spawning thread:\n\t"@ + cause,
        ErrorView::ThreadJoin(cause) => "Error attempting to join thread:\n\t"@ + cause,
        ErrorView::ProcessKill(pid, cause) => "Error killing child process with pid "@
            + spec_decimal(pid as nat)
            + ":\n\t"@
            + cause,
        ErrorView::HashMismatch(path, expected, actual) => "SHA-1 hash of local file "@
            + path
            + " did not match manifest's hash of "@
            + spec_hex(expected)
            + "; the local hash is "@
            + spec_hex(actual),
        ErrorView::SessionStoreConnect(cause) => "Failed to connect to session password store:\n\t"@ + cause,
        ErrorView::PasswordUnlock(cause) => "Could not unlock password from session store:\n\t"@ + cause,
        ErrorView::PasswordGet(cause) => "Failed to get password from secret store:\n\t"@ + cause,
        ErrorView::PasswordUtf8(cause) => "Password from session store is invalid:\n\t"@ + cause,
        ErrorView::PasswordSave(cause) => "Failed to save password in session store:\n\t"@ + cause,
        ErrorView::DeleteSecretItem(cause) => "Failed to delete item in secret store:\n\t"@ + cause,
    }
}

impl Error {
    /// The exit code with which the program ends on this error: the number of
    /// its kind, counted from 1 in the order of declaration.
    pub fn return_code(&self) -> (code: i32)
        ensures
            code == spec_return_code(self@),
            1 <= code <= 43,
    {
        match self {
            Error::NoPossibleConfigPath(_) => 1,
            Error::BadConfigPath(_) => 2,
            Error::Mkdir(_, _) => 3,
            Error::PermissionDenied(_, _) => 4,
            Error::Stdout(_) => 5,
            Error::Stdin(_) => 6,
            Error::UnknownIo(_, _) => 7,
            Error::Serialize(_) => 8,
            Error::Deserialize(_) => 9,
            Error::ManifestRequest(_) => 10,
            Error::ManifestRequestStatus(_, _) => 11,
            Error::BadManifestFormat(_) => 12,
            Error::FileRead(_, _) => 13,
            Error::FileWrite(_, _) => 14,
            Error::DownloadRequest(_) => 15,
            Error::DownloadRequestStatus(_, _) => 16,
            Error::CopyIntoFile(_, _) => 17,
            Error::Decode(_, _) => 18,
            Error::BadPatchVersion => 19,
            Error::BadPatchSize => 20,
            Error::Seek(_, _) => 21,
            Error::PatchSanityCheckFail(_) => 22,
            Error::FileRename(_, _) => 23,
            Error::NotDir(_) => 24,
            Error::RemoveFile(_, _) => 25,
            Error::MissingFile(_) => 26,
            Error::PermissionsSet(_, _) => 27,
            Error::MissingCommandLineArg(_) => 28,
            Error::PasswordRead(_) => 29,
            Error::HttpClientCreate(_) => 30,
            Error::Post(_) => 31,
            Error::BadLoginResponse(_) => 32,
            Error::UnexpectedSuccessValue(_) => 33,
            Error::ThreadSpawn(_) => 34,
            Error::ThreadJoin(_) => 35,
            Error::ProcessKill(_, _) => 36,
            Error::HashMismatch(_, _, _) => 37,
            Error::SessionStoreConnect(_) => 38,
            Error::PasswordUnlock(_) => 39,
            Error::PasswordGet(_) => 40,
            Error::PasswordUtf8(_) => 41,
            Error::PasswordSave(_) => 42,
            Error::DeleteSecretItem(_) => 43,
        }
    }

    /// The text that tells a person what went wrong, with the paths, causes and
    /// digests that the error carries.
    pub fn message(&self) -> (text: String)
        ensures
            text@ == spec_message(self@),
    {
        match self {
            Error::NoPossibleConfigPath(platform) => match platform {
                Platform::Linux => String::from_str(
                    "No config path was given, and the $XDG_CONFIG_HOME and $HOME environment variables are both unset or empty",
                ),
                Platform::Windows => String::from_str(
                    "No config path was given, and the %APPDATA% environment variable is unset or empty",
                ),
                Platform::MacOs => String::from_str(
                    "No config path was given, and the $HOME environment variable is unset or empty",
                ),
            },
            Error::BadConfigPath(path) => {
                let mut text = String::from_str("Bad config file path specified: ");
                text.append(path.as_str());
                text
            },
            Error::Mkdir(path, cause) => {
                let mut text = String::from_str("`mkdir -p ");
                text.append(path.as_str());
                text.append("` failed:\n\t");
                text.append(cause.as_str());
                text
            },
            Error::PermissionDenied(doing, cause) => {
                let mut text = String::from_str("Permission denied while ");
                text.append(doing.as_str());
                text.append(":\n\t");
                text.append(cause.as_str());
                text
            },
            Error::Stdout(cause) => {
                let mut text = String::from_str("stdout error:\n\t");
                text.append(cause.as_str());
                text
            },
            Error::Stdin(cause) => {
                let mut text = String::from_str("stdin error:\n\t");
                text.append(cause.as_str());
                text
            },
            Error::UnknownIo(doing, cause) => {
                let mut text = String::from_str("Unknown I/O error while ");
                text.append(doing.as_str());
                text.append(":\n\t");
                text.append(cause.as_str());
                text
            },
            Error::Serialize(cause) => {
                let mut text = String::from_str("Failed to write JSON:\n\t");
                text.append(cause.as_str());
                text
            },
            Error::Deserialize(cause) => {
                let mut text = String::from_str("Failed to read JSON:\n\t");
                text.append(cause.as_str());
                text
            },
            Error::ManifestRequest(cause) => {
                let mut text = String::from_str("Error requesting manifest:\n\t");
                text.append(cause.as_str());
                text
            },
            Error::ManifestRequestStatus(status, reason) => {
                let mut text = String::from_str("Bad status code after requesting manifest:\n\t");
                text.append(decimal(*status as u32).as_str());
                text.append(" ");
                text.append(reason.as_str());
                text
            },
            Error::BadManifestFormat(what) => {
                let mut text = String::from_str("Bad manifest format:\n\t");
                text.append(what.as_str());
                text
            },
            Error::FileRead(path, cause) => {
                let mut text = String::from_str("Failed to read from ");
                text.append(path.as_str());
                text.append(":\n\t");
                text.append(cause.as_str());
                text
            },
            Error::FileWrite(path, cause) => {
                let mut text = String::from_str("Failed to write to ");
                text.append(path.as_str());
                text.append(":\n\t");
                text.append(cause.as_str());
                text
            },
            Error::DownloadRequest(cause) => {
                let mut text = String::from_str("Error requesting download: ");
                text.append(cause.as_str());
                text
            },
            Error::DownloadRequestStatus(status, reason) => {
                let mut text = String::from_str("Bad status code after requesting download: ");
                text.append(decimal(*status as u32).as_str());
                text.append(" ");
                text.append(reason.as_str());
                text
            },
            Error::CopyIntoFile(path, cause) => {
                let mut text = String::from_str("Failure copying HTTP-downloaded data into ");
                text.append(path.as_str());
                text.append(":\n\t");
                text.append(cause.as_str());
                text
            },
            Error::Decode(what, cause) => {
                let mut text = String::from_str("Error decoding bzip2 in ");
                text.append(what.as_str());
                text.append(":\n\t");
                text.append(cause.as_str());
                text
            },
            Error::BadPatchVersion => {
                String::from_str("Unable to determine patch's version, or patch is invalid")
            },
            Error::BadPatchSize => {
                String::from_str("Unable to determine patch's size, or patch is invalid")
            },
            Error::Seek(path, cause) => {
                let mut text = String::from_str("Error while seeking through file ");
                text.append(path.as_str());
                text.append(":\n\t");
                text.append(cause.as_str());
                text
            },
            Error::PatchSanityCheckFail(check) => {
                let mut text = String::from_str("During patching, sanity check #");
                text.append(decimal(*check as u32).as_str());
                text.append(" failed");
                text
            },
            Error::FileRename(from, to) => {
                let mut text = String::from_str("Error renaming file from ");
                text.append(from.as_str());
                text.append(" to ");
                text.append(to.as_str());
                text
            },
            Error::NotDir(path) => {
                let mut text = String::from_str(path.as_str());
                text.append(" is not a directory");
                text
            },
            Error::RemoveFile(path, cause) => {
                let mut text = String::from_str("Error removing file ");
                text.append(path.as_str());
                text.append(":\n\t");
                text.append(cause.as_str());
                text
            },
            Error::MissingFile(name) => {
                let mut text = String::from_str("Expected \"");
                text.append(name.as_str());
                text.append("\" file to exist");
                text
            },
            Error::PermissionsSet(path, cause) => {
                let mut text = String::from_str("Failure to set permissions on file ");
                text.append(path.as_str());
                text.append(":\n\t");
                text.append(cause.as_str());
                text
            },
            Error::MissingCommandLineArg(name) => {
                let mut text = String::from_str("Expected the ");
                text.append(name.as_str());
                text.append(" command line argument to be present");
                text
            },
            Error::PasswordRead(cause) => {
                let mut text = String::from_str("Error reading password:\n\t");
                text.append(cause.as_str());
                text
            },
            Error::HttpClientCreate(cause) => {
                let mut text = String::from_str("Error creating HTTP client:\n\t");
                text.append(cause.as_str());
                text
            },
            Error::Post(cause) => {
                let mut text = String::from_str("Error sending HTTP POST:\n\t");
                text.append(cause.as_str());
                text
            },
            Error::BadLoginResponse(what) => {
                let mut text = String::from_str("Bad login response:\n\t");
                text.append(what.as_str());
                text
            },
            Error::UnexpectedSuccessValue(value) => {
                let mut text = String::from_str("Unexpected \"success\" value: ");
                text.append(value.as_str());
                text
            },
            Error::ThreadSpawn(cause) => {
                let mut text = String::from_str("Error spawning thread:\n\t");
                text.append(cause.as_str());
                text
            },
            Error::ThreadJoin(cause) => {
                let mut text = String::from_str("Error attempting to join thread:\n\t");
                text.append(cause.as_str());
                text
            },
            Error::ProcessKill(pid, cause) => {
                let mut text = String::from_str("Error killing child process with pid ");
                text.append(decimal(*pid as u32).as_str());
                text.append(":\n\t");
                text.append(cause.as_str());
                text
            },
            Error::HashMismatch(path, expected, actual) => {
                let mut text = String::from_str("SHA-1 hash of local file ");
                text.append(path.as_str());
                text.append(" did not match manifest's hash of ");
                text.append(hex(expected).as_str());
                text.append("; the local hash is ");
                text.append(hex(actual).as_str());
                text
            },
            Error::SessionStoreConnect(cause) => {
                let mut text = String::from_str("Failed to connect to session password store:\n\t");
                text.append(cause.as_str());
                text
            },
            Error::PasswordUnlock(cause) => {
                let mut text = String::from_str("Could not unlock password from session store:\n\t");
                text.append(cause.as_str());
                text
            },
            Error::PasswordGet(cause) => {
                let mut text = String::from_str("Failed to get password from secret store:\n\t");
                text.append(cause.as_str());
                text
            },
            Error::PasswordUtf8(cause) => {
                let mut text = String::from_str("Password from session store is invalid:\n\t");
                text.append(cause.as_str());
                text
            },
            Error::PasswordSave(cause) => {
                let mut text = String::from_str("Failed to save password in session store:\n\t");
                text.append(cause.as_str());
                text
            },
            Error::DeleteSecretItem(cause) => {
                let mut text = String::from_str("Failed to delete item in secret store:\n\t");
                text.append(cause.as_str());
                text
            },
        }
    }
}

} // verus!
