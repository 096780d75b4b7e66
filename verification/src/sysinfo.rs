//! The name and the release of the operating system, with a fallback where
//! the system does not say.

use vstd::prelude::*;

verus! {

/// Why the system did not answer.
#[derive(Clone, Copy, Debug, PartialEq, Eq, Structural)]
pub enum OsInfoError {
    UnsupportedSystem,
    ExecFailed,
    IO,
    SystemTime,
    General,
    Unknown,
}

#[verifier::external_type_specification]
#[verifier::external_body]
pub struct ExSysInfoError(sys_info::Error);

/// `sys_info::os_type`: the name of the operating system, as the system
/// itself gives it. Nothing is claimed of the answer.
#[verifier::external_body]
fn os_type() -> (answer: Result<String, sys_info::Error>) {
    sys_info::os_type()
}

/// `sys_info::os_release`: the release of the operating system, as the
/// system itself gives it. Nothing is claimed of the answer.
#[verifier::external_body]
fn os_release() -> (answer: Result<String, sys_info::Error>) {
    sys_info::os_release()
}

/// Which of the variants of `sys_info::Error` an error is. What the error
/// carries is dropped.
#[verifier::external_body]
fn error_kind(error: &sys_info::Error) -> (kind: OsInfoError) {
    match error {
        sys_info::Error::UnsupportedSystem => OsInfoError::UnsupportedSystem,
        sys_info::Error::ExecFailed(_) => OsInfoError::ExecFailed,
        sys_info::Error::IO(_) => OsInfoError::IO,
        sys_info::Error::SystemTime(_) => OsInfoError::SystemTime,
        sys_info::Error::General(_) => OsInfoError::General,
        sys_info::Error::Unknown => OsInfoError::Unknown,
    }
}

/// An answer of the system with the error reduced to its kind.
fn reduce(answer: Result<String, sys_info::Error>) -> (reduced: Result<String, OsInfoError>)
    ensures
        answer is Ok <==> reduced is Ok,
        answer matches Ok(text) ==> reduced == Ok::<String, OsInfoError>(text),
{
    match answer {
        Ok(text) => Ok(text),
        Err(error) => Err(error_kind(&error)),
    }
}

/// A source of the operating system's name and release.
pub trait OSInfo {
    /// Whether this source may give `answer` when asked for the name. A
    /// source that does not say gives any answer.
    open spec fn may_name(&self, answer: Result<String, OsInfoError>) -> bool {
        true
    }

    /// Whether this source may give `answer` when asked for the release. A
    /// source that does not say gives any answer.
    open spec fn may_release(&self, answer: Result<String, OsInfoError>) -> bool {
        true
    }

    fn get_os(&mut self) -> (answer: Result<String, OsInfoError>)
        ensures
            old(self).may_name(answer),
    ;

    fn get_os_version(&mut self) -> (answer: Result<String, OsInfoError>)
        ensures
            old(self).may_release(answer),
    ;
}

/// The name to report for an answer: the name itself, or `Unknown OS`.
pub open spec fn os_name(answer: Result<String, OsInfoError>) -> Seq<char> {
    match answer {
        Ok(name) => name@,
        Err(_) => "Unknown OS"@,
    }
}

/// The release to report for an answer: the release itself, or
/// `Unknown OS Version`.
pub open spec fn os_version_name(answer: Result<String, OsInfoError>) -> Seq<char> {
    match answer {
        Ok(release) => release@,
        Err(_) => "Unknown OS Version"@,
    }
}

/// Turns a source's answer into the name to report.
pub fn name_or_unknown(answer: Result<String, OsInfoError>) -> (name: String)
    ensures
        name@ == os_name(answer),
{
    match answer {
        Ok(os_type) => os_type,
        Err(_) => "Unknown OS".to_string(),
    }
}

/// Turns a source's answer into the release to report.
pub fn version_or_unknown(answer: Result<String, OsInfoError>) -> (release: String)
    ensures
        release@ == os_version_name(answer),
{
    match answer {
        Ok(os_version) => os_version,
        Err(_) => "Unknown OS Version".to_string(),
    }
}

/// The name of the operating system, or `Unknown OS` where the source fails.
pub fn get_os<T: OSInfo>(helper: &mut T) -> (name: String)
    ensures
        exists|answer: Result<String, OsInfoError>|
            old(helper).may_name(answer) && name@ == os_name(answer),
{
    let answer = helper.get_os();
    name_or_unknown(answer)
}

/// The release of the operating system, or `Unknown OS Version` where the
/// source fails.
pub fn get_os_version<T: OSInfo>(helper: &mut T) -> (release: String)
    ensures
        exists|answer: Result<String, OsInfoError>|
            old(helper).may_release(answer) && release@ == os_version_name(answer),
{
    let answer = helper.get_os_version();
    version_or_unknown(answer)
}

/// The system itself as the source.
pub struct SysInfoHelper;

impl OSInfo for SysInfoHelper {
    fn get_os(&mut self) -> (answer: Result<String, OsInfoError>) {
        reduce(os_type())
    }

    fn get_os_version(&mut self) -> (answer: Result<String, OsInfoError>) {
        reduce(os_release())
    }
}

/// A source that asks the system while `success` is set, and otherwise says
/// that the system is not supported.
pub struct MockSysInfoHelper {
    pub success: bool,
}

impl OSInfo for MockSysInfoHelper {
    open spec fn may_name(&self, answer: Result<String, OsInfoError>) -> bool {
        self.success || answer == Err::<String, OsInfoError>(OsInfoError::UnsupportedSystem)
    }

    open spec fn may_release(&self, answer: Result<String, OsInfoError>) -> bool {
        self.success || answer == Err::<String, OsInfoError>(OsInfoError::UnsupportedSystem)
    }

    fn get_os(&mut self) -> (answer: Result<String, OsInfoError>)
        ensures
            *final(self) == *old(self),
    {
        if self.success {
            reduce(os_type())
        } else {
            Err(OsInfoError::UnsupportedSystem)
        }
    }

    fn get_os_version(&mut self) -> (answer: Result<String, OsInfoError>)
        ensures
            *final(self) == *old(self),
    {
        if self.success {
            reduce(os_release())
        } else {
            Err(OsInfoError::UnsupportedSystem)
        }
    }
}

impl MockSysInfoHelper {
    #[allow(non_snake_case)]
    pub fn getResult(&mut self) -> (success: bool)
        ensures
            success == old(self).success,
            *final(self) == *old(self),
    {
        self.success
    }

    #[allow(non_snake_case)]
    pub fn setResult(&mut self, success: bool)
        ensures
            final(self).success == success,
    {
        self.success = success
    }
}

} // verus!
