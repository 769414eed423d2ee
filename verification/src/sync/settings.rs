//! The settings reconciler: one record without identifier or timestamp,
//! moved as a whole.

use crate::models::{Settings, SettingsView};
use vstd::prelude::*;

verus! {

/// The one command of a settings reconciliation, carrying the settings to
/// write.
#[derive(Debug)]
pub enum SettingsStep<T> {
    /// The remote side has no settings: upload the local ones as they are.
    UploadLocal(T),
    /// The remote side has settings: they overwrite the local ones.
    OverwriteLocal(T),
}

impl View for SettingsStep<Settings> {
    type V = SettingsStep<SettingsView>;

    open spec fn view(&self) -> SettingsStep<SettingsView> {
        match *self {
            SettingsStep::UploadLocal(s) => SettingsStep::UploadLocal(s@),
            SettingsStep::OverwriteLocal(s) => SettingsStep::OverwriteLocal(s@),
        }
    }
}

/// What the settings need: where the remote side has none, the local ones go
/// up; where it has some, they win, whatever the local ones are.
pub open spec fn settings_verdict(local: SettingsView, remote: Option<SettingsView>) -> SettingsStep<
    SettingsView,
> {
    match remote {
        None => SettingsStep::UploadLocal(local),
        Some(r) => SettingsStep::OverwriteLocal(r),
    }
}

/// The local settings and the remote ones after `step` has been carried out.
pub open spec fn settings_after(
    local: SettingsView,
    remote: Option<SettingsView>,
    step: SettingsStep<SettingsView>,
) -> (SettingsView, Option<SettingsView>) {
    match step {
        SettingsStep::UploadLocal(s) => (local, Some(s)),
        SettingsStep::OverwriteLocal(s) => (s, remote),
    }
}

/// Reconciles the local settings with what the remote side returned.
pub fn reconcile_settings(local: &Settings, remote: Option<&Settings>) -> (step: SettingsStep<
    Settings,
>)
    ensures
        step@ == settings_verdict(
            local@,
            match remote {
                Some(r) => Some(r@),
                None => None,
            },
        ),
{
    match remote {
        None => SettingsStep::UploadLocal(local.clone()),
        Some(r) => SettingsStep::OverwriteLocal(r.clone()),
    }
}

/// Once the command has been carried out both sides hold the same settings:
/// the remote ones where there were any, else the local ones. A second run
/// then changes nothing on either side.
pub proof fn law_settings_settle(local: SettingsView, remote: Option<SettingsView>)
    ensures
        ({
            let (local2, remote2) = settings_after(local, remote, settings_verdict(local, remote));
            &&& remote2 == Some(local2)
            &&& local2 == match remote {
                Some(r) => r,
                None => local,
            }
            &&& settings_after(local2, remote2, settings_verdict(local2, remote2)) == (
                local2,
                remote2,
            )
        }),
{
}

} // verus!
