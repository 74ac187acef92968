//! Game version checks.
use vstd::prelude::*;
use crate::text::str_eq;

verus! {

/// The installed game version the launcher reports.
pub fn installed_version() -> (v: String)
    ensures
        v@ == "1.25.157800"@,
{
    String::from_str("1.25.157800")
}

/// The newest published game version the launcher knows of.
pub fn published_version() -> (v: String)
    ensures
        v@ == "1.25.157849"@,
{
    String::from_str("1.25.157849")
}

/// Outcome of comparing the installed version with the published one.
#[derive(Clone, Copy, Debug, PartialEq, Eq, Structural)]
pub enum VersionCheck {
    UpToDate,
    UpdateAvailable,
}

/// An update is available exactly when the published version differs from
/// the installed one.
pub fn compare_versions(current: &str, published: &str) -> (r: VersionCheck)
    ensures
        (r == VersionCheck::UpdateAvailable) == (current@ != published@),
{
    if str_eq(published, current) {
        VersionCheck::UpToDate
    } else {
        VersionCheck::UpdateAvailable
    }
}

} // verus!
