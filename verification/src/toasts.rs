//! What the settings window tells of what was done.
use vstd::prelude::*;
use vstd::string::*;

use crate::text::{decimal, digits};

verus! {

/// One notification.
#[derive(Debug)]
pub enum Toast {
    NothingImported,
    Imported(u64),
    ImportFailed(String),
    RunnerSet(String),
    RunnerNotSaved(String),
    Installed(String),
    InstallFailed(String),
    Stopped,
    StopFailed(String),
    Started(u64),
    StartFailed(String),
    SettingsReset,
    ResetNotSaved(String),
    NameMissing,
    ProfileSaved(String),
    SaveFailed(String),
    NothingSelected,
    ProfileLoaded(String),
    LoadNotSaved(String),
    ProfileDeleted(String),
    ProfileGone,
    DeleteFailed(String),
}

impl Toast {
    /// The text shown.
    pub open spec fn wording(&self) -> Seq<char> {
        match self {
            Toast::NothingImported => "No matching DLLs found in that folder"@,
            Toast::Imported(count) => "Imported "@ + digits(*count as int)
                + " file(s) -- restart the helper to load them"@,
            Toast::ImportFailed(error) => "Import failed: "@ + error@,
            Toast::RunnerSet(name) => "Runner set to "@ + name@
                + " -- restart the helper to use it"@,
            Toast::RunnerNotSaved(error) => "Failed to save: "@ + error@,
            Toast::Installed(root) => "Installed to "@ + root@,
            Toast::InstallFailed(error) => "Install failed: "@ + error@,
            Toast::Stopped => "Helper stopped"@,
            Toast::StopFailed(error) => "Stop failed: "@ + error@,
            Toast::Started(pid) => "Helper started (pid "@ + digits(*pid as int) + ")"@,
            Toast::StartFailed(error) => "Start failed: "@ + error@,
            Toast::SettingsReset =>
                "Settings reset -- restart NeuralForge to see it reflected here"@,
            Toast::ResetNotSaved(error) =>
                "Reset the live session, but saving config.ini failed: "@ + error@,
            Toast::NameMissing => "Enter a name before saving"@,
            Toast::ProfileSaved(name) => "Saved profile \""@ + name@ + "\""@,
            Toast::SaveFailed(error) => "Save failed: "@ + error@,
            Toast::NothingSelected => "No profile selected"@,
            Toast::ProfileLoaded(name) => "Loaded profile \""@ + name@
                + "\" -- restart NeuralForge to see it reflected here"@,
            Toast::LoadNotSaved(error) =>
                "Applied to the running session, but saving config.ini failed: "@ + error@,
            Toast::ProfileDeleted(name) => "Deleted profile \""@ + name@ + "\""@,
            Toast::ProfileGone => "Profile already gone"@,
            Toast::DeleteFailed(error) => "Delete failed: "@ + error@,
        }
    }

    /// The text shown.
    pub fn text(&self) -> (r: String)
        ensures
            r@ == self.wording(),
    {
        match self {
            Toast::NothingImported => "No matching DLLs found in that folder".to_owned(),
            Toast::Imported(count) => around(
                "Imported ",
                decimal(*count).as_str(),
                " file(s) -- restart the helper to load them",
            ),
            Toast::ImportFailed(error) => after("Import failed: ", error.as_str()),
            Toast::RunnerSet(name) => around(
                "Runner set to ",
                name.as_str(),
                " -- restart the helper to use it",
            ),
            Toast::RunnerNotSaved(error) => after("Failed to save: ", error.as_str()),
            Toast::Installed(root) => after("Installed to ", root.as_str()),
            Toast::InstallFailed(error) => after("Install failed: ", error.as_str()),
            Toast::Stopped => "Helper stopped".to_owned(),
            Toast::StopFailed(error) => after("Stop failed: ", error.as_str()),
            Toast::Started(pid) => around("Helper started (pid ", decimal(*pid).as_str(), ")"),
            Toast::StartFailed(error) => after("Start failed: ", error.as_str()),
            Toast::SettingsReset =>
                "Settings reset -- restart NeuralForge to see it reflected here".to_owned(),
            Toast::ResetNotSaved(error) => after(
                "Reset the live session, but saving config.ini failed: ",
                error.as_str(),
            ),
            Toast::NameMissing => "Enter a name before saving".to_owned(),
            Toast::ProfileSaved(name) => around("Saved profile \"", name.as_str(), "\""),
            Toast::SaveFailed(error) => after("Save failed: ", error.as_str()),
            Toast::NothingSelected => "No profile selected".to_owned(),
            Toast::ProfileLoaded(name) => around(
                "Loaded profile \"",
                name.as_str(),
                "\" -- restart NeuralForge to see it reflected here",
            ),
            Toast::LoadNotSaved(error) => after(
                "Applied to the running session, but saving config.ini failed: ",
                error.as_str(),
            ),
            Toast::ProfileDeleted(name) => around("Deleted profile \"", name.as_str(), "\""),
            Toast::ProfileGone => "Profile already gone".to_owned(),
            Toast::DeleteFailed(error) => after("Delete failed: ", error.as_str()),
        }
    }
}

fn after(start: &str, rest: &str) -> (r: String)
    ensures
        r@ == start@ + rest@,
{
    let mut text = start.to_owned();
    text.append(rest);
    text
}

fn around(start: &str, middle: &str, end: &str) -> (r: String)
    ensures
        r@ == start@ + middle@ + end@,
{
    let mut text = start.to_owned();
    text.append(middle);
    text.append(end);
    text
}

/// What an import of binaries comes to: how many files were copied, or why it failed.
pub fn import_toast(outcome: Result<u64, String>) -> (r: Toast)
    ensures
        r == (match outcome {
            Ok(0) => Toast::NothingImported,
            Ok(count) => Toast::Imported(count),
            Err(error) => Toast::ImportFailed(error),
        }),
{
    match outcome {
        Ok(count) => if count == 0 {
            Toast::NothingImported
        } else {
            Toast::Imported(count)
        },
        Err(error) => Toast::ImportFailed(error),
    }
}

/// What the deletion of a profile comes to: whether it was there, or why it failed.
pub fn delete_toast(name: String, outcome: Result<bool, String>) -> (r: Toast)
    ensures
        r == (match outcome {
            Ok(true) => Toast::ProfileDeleted(name),
            Ok(false) => Toast::ProfileGone,
            Err(error) => Toast::DeleteFailed(error),
        }),
{
    match outcome {
        Ok(true) => Toast::ProfileDeleted(name),
        Ok(false) => Toast::ProfileGone,
        Err(error) => Toast::DeleteFailed(error),
    }
}

/// What the choice of a compatibility tool comes to: saved, or why not.
pub fn runner_toast(name: String, failure: Option<String>) -> (r: Toast)
    ensures
        r == (match failure {
            None => Toast::RunnerSet(name),
            Some(error) => Toast::RunnerNotSaved(error),
        }),
{
    match failure {
        None => Toast::RunnerSet(name),
        Some(error) => Toast::RunnerNotSaved(error),
    }
}

/// What an installation comes to: where it went, or why it failed.
pub fn install_toast(outcome: Result<String, String>) -> (r: Toast)
    ensures
        r == (match outcome {
            Ok(root) => Toast::Installed(root),
            Err(error) => Toast::InstallFailed(error),
        }),
{
    match outcome {
        Ok(root) => Toast::Installed(root),
        Err(error) => Toast::InstallFailed(error),
    }
}

/// What stopping the helper comes to.
pub fn stop_toast(failure: Option<String>) -> (r: Toast)
    ensures
        r == (match failure {
            None => Toast::Stopped,
            Some(error) => Toast::StopFailed(error),
        }),
{
    match failure {
        None => Toast::Stopped,
        Some(error) => Toast::StopFailed(error),
    }
}

/// What starting the helper comes to: its process, or why it failed.
pub fn start_toast(outcome: Result<u64, String>) -> (r: Toast)
    ensures
        r == (match outcome {
            Ok(pid) => Toast::Started(pid),
            Err(error) => Toast::StartFailed(error),
        }),
{
    match outcome {
        Ok(pid) => Toast::Started(pid),
        Err(error) => Toast::StartFailed(error),
    }
}

/// What a reset of the settings comes to. The running session is reset in any case; only
/// the saving can fail.
pub fn reset_toast(failure: Option<String>) -> (r: Toast)
    ensures
        r == (match failure {
            None => Toast::SettingsReset,
            Some(error) => Toast::ResetNotSaved(error),
        }),
{
    match failure {
        None => Toast::SettingsReset,
        Some(error) => Toast::ResetNotSaved(error),
    }
}

/// What saving a profile comes to.
pub fn save_toast(name: String, failure: Option<String>) -> (r: Toast)
    ensures
        r == (match failure {
            None => Toast::ProfileSaved(name),
            Some(error) => Toast::SaveFailed(error),
        }),
{
    match failure {
        None => Toast::ProfileSaved(name),
        Some(error) => Toast::SaveFailed(error),
    }
}

/// What loading a profile comes to. It is applied to the running session in any case; only
/// the saving can fail.
pub fn load_toast(name: String, failure: Option<String>) -> (r: Toast)
    ensures
        r == (match failure {
            None => Toast::ProfileLoaded(name),
            Some(error) => Toast::LoadNotSaved(error),
        }),
{
    match failure {
        None => Toast::ProfileLoaded(name),
        Some(error) => Toast::LoadNotSaved(error),
    }
}

/// A failure is told with its reason: the text of every failure ends in the error that was
/// given, whatever it is.
pub proof fn failures_are_told_with_their_reason(toast: Toast)
    ensures
        match toast {
            Toast::ImportFailed(error)
            | Toast::RunnerNotSaved(error)
            | Toast::InstallFailed(error)
            | Toast::StopFailed(error)
            | Toast::StartFailed(error)
            | Toast::ResetNotSaved(error)
            | Toast::SaveFailed(error)
            | Toast::LoadNotSaved(error)
            | Toast::DeleteFailed(error) => ends_in(toast.wording(), error@),
            _ => true,
        },
{
    match toast {
        Toast::ImportFailed(error) => lemma_ends_in("Import failed: "@, error@),
        Toast::RunnerNotSaved(error) => lemma_ends_in("Failed to save: "@, error@),
        Toast::InstallFailed(error) => lemma_ends_in("Install failed: "@, error@),
        Toast::StopFailed(error) => lemma_ends_in("Stop failed: "@, error@),
        Toast::StartFailed(error) => lemma_ends_in("Start failed: "@, error@),
        Toast::ResetNotSaved(error) => lemma_ends_in(
            "Reset the live session, but saving config.ini failed: "@,
            error@,
        ),
        Toast::SaveFailed(error) => lemma_ends_in("Save failed: "@, error@),
        Toast::LoadNotSaved(error) => lemma_ends_in(
            "Applied to the running session, but saving config.ini failed: "@,
            error@,
        ),
        Toast::DeleteFailed(error) => lemma_ends_in("Delete failed: "@, error@),
        _ => {},
    }
}

/// The text ends in `end`.
pub open spec fn ends_in(text: Seq<char>, end: Seq<char>) -> bool {
    text.len() >= end.len() && text.skip(text.len() - end.len()) == end
}

proof fn lemma_ends_in(start: Seq<char>, end: Seq<char>)
    ensures
        ends_in(start + end, end),
{
    assert((start + end).skip(start.len() as int) =~= end);
}

/// What was done is told with what it was done to: the name, the place or the number that was
/// given stands in the text, whole, between words that do not depend on it.
pub proof fn successes_are_told_with_their_object(toast: Toast)
    ensures
        match toast {
            Toast::Imported(count) => toast.wording() == "Imported "@ + digits(count as int)
                + " file(s) -- restart the helper to load them"@,
            Toast::Started(pid) => toast.wording() == "Helper started (pid "@ + digits(pid as int)
                + ")"@,
            Toast::RunnerSet(name) => toast.wording() == "Runner set to "@ + name@
                + " -- restart the helper to use it"@,
            Toast::Installed(root) => toast.wording() == "Installed to "@ + root@,
            Toast::ProfileSaved(name) => toast.wording() == "Saved profile \""@ + name@ + "\""@,
            Toast::ProfileLoaded(name) => toast.wording() == "Loaded profile \""@ + name@
                + "\" -- restart NeuralForge to see it reflected here"@,
            Toast::ProfileDeleted(name) => toast.wording() == "Deleted profile \""@ + name@
                + "\""@,
            _ => true,
        },
{
}

} // verus!
