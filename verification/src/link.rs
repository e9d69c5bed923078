//! What happens to one candidate: linked, unlinked, skipped, or only shown.
//!
//! The engine decides and never touches the file system. Its caller looks at
//! the target path, hands in what it found there, and carries out the verdict.

use crate::paths::{file_name_of, final_component, join_path, joined_path};
use vstd::prelude::*;
use vstd::string::*;

verus! {

/// What a run does with each candidate.
#[derive(Clone, Copy, Debug, PartialEq, Eq, Structural)]
pub enum LinkAction {
    Link,
    Unlink,
}

/// What was found at a target path.
#[derive(Clone, Copy, Debug, PartialEq, Eq, Structural)]
pub enum TargetState {
    /// Nothing is there.
    Absent,
    /// A symbolic link is there.
    Symlink,
    /// Something else is there: a file, a directory.
    Other,
}

/// What the engine decided for a candidate.
#[derive(Clone, Copy, Debug, PartialEq, Eq, Structural)]
pub enum Verdict {
    /// Skipped: the source path has no final component.
    NoFileName,
    /// Skipped: something is at the target already.
    AlreadyExists,
    /// Skipped: nothing is at the target to unlink.
    Missing,
    /// Skipped: what is at the target is not a symbolic link.
    NotASymlink,
    /// Skipped: the user said no.
    Declined,
    /// Simulated: a link would be created.
    WouldLink,
    /// Simulated: the link would be removed.
    WouldUnlink,
    /// To do: create the link at the target.
    CreateLink,
    /// To do: remove the link at the target.
    RemoveLink,
}

/// A verdict with the target path it is about; no target where the source
/// has no final component.
#[derive(Debug)]
pub struct LinkOutcome {
    pub verdict: Verdict,
    pub target: Option<String>,
}

/// The target path of a candidate: the target directory joined with the
/// final component of the source.
pub open spec fn target_of(source: Seq<char>, target_dir: Seq<char>) -> Option<Seq<char>> {
    match final_component(source) {
        Some(name) => Some(joined_path(target_dir, name)),
        None => None,
    }
}

/// The verdict for a candidate whose source has a final component or not,
/// under an action, with or without simulation, given what is at the target.
pub open spec fn decide(
    has_name: bool,
    action: LinkAction,
    simulate: bool,
    state: TargetState,
) -> Verdict {
    if !has_name {
        Verdict::NoFileName
    } else {
        match (action, state) {
            (LinkAction::Link, TargetState::Absent) => if simulate {
                Verdict::WouldLink
            } else {
                Verdict::CreateLink
            },
            (LinkAction::Link, _) => Verdict::AlreadyExists,
            (LinkAction::Unlink, TargetState::Absent) => Verdict::Missing,
            (LinkAction::Unlink, TargetState::Other) => Verdict::NotASymlink,
            (LinkAction::Unlink, TargetState::Symlink) => if simulate {
                Verdict::WouldUnlink
            } else {
                Verdict::RemoveLink
            },
        }
    }
}

/// A verdict that waits for the user's word where one is asked for: an
/// action to do or to show.
pub open spec fn is_pending(verdict: Verdict) -> bool {
    verdict == Verdict::WouldLink || verdict == Verdict::WouldUnlink || verdict
        == Verdict::CreateLink || verdict == Verdict::RemoveLink
}

/// The verdict once the user has answered.
pub open spec fn answered(verdict: Verdict, confirmed: bool) -> Verdict {
    if is_pending(verdict) && !confirmed {
        Verdict::Declined
    } else {
        verdict
    }
}

/// What is at the target once a verdict has been carried out without error.
pub open spec fn state_after(verdict: Verdict, before: TargetState) -> TargetState {
    match verdict {
        Verdict::CreateLink => TargetState::Symlink,
        Verdict::RemoveLink => TargetState::Absent,
        _ => before,
    }
}

/// The line that reports a verdict on `source`, whose target path is
/// `target`.
pub open spec fn report_text(verdict: Verdict, source: Seq<char>, target: Seq<char>) -> Seq<char> {
    let arrow = "'"@ + source + "' -> '"@ + target + "'"@;
    match verdict {
        Verdict::NoFileName => "skipping '"@ + source + "'  filename not found"@,
        Verdict::AlreadyExists => "target '"@ + target + "' already exists, skipping."@,
        Verdict::Missing => "target '"@ + target + "' doesn't exists, skipping."@,
        Verdict::NotASymlink => "target '"@ + target + "' is not a symlink, skipping."@,
        Verdict::Declined => "skipping '"@ + source + "' "@,
        Verdict::WouldLink => "[SIMULATE] linking "@ + arrow,
        Verdict::WouldUnlink => "[SIMULATE] unlinking "@ + arrow,
        Verdict::CreateLink => "linking "@ + arrow,
        Verdict::RemoveLink => "unlinking "@ + arrow,
    }
}

/// `Unlink` where the flag is set, `Link` where it is not.
pub fn get_link_action(action: bool) -> (chosen: LinkAction)
    ensures
        chosen == if action {
            LinkAction::Unlink
        } else {
            LinkAction::Link
        },
{
    if action {
        LinkAction::Unlink
    } else {
        LinkAction::Link
    }
}

/// What is at a target path, from what the caller found there: whether
/// anything is there, and whether the path itself is a symbolic link. Where
/// nothing was found the target is absent, whatever else is said of it.
pub fn target_state(found: bool, is_symlink: bool) -> (state: TargetState)
    ensures
        state == if !found {
            TargetState::Absent
        } else if is_symlink {
            TargetState::Symlink
        } else {
            TargetState::Other
        },
{
    if !found {
        TargetState::Absent
    } else if is_symlink {
        TargetState::Symlink
    } else {
        TargetState::Other
    }
}

/// The path at which `source` is linked under `target_dir`: the directory
/// joined with the final component of `source`, if it has one.
pub fn target_path(source: &str, target_dir: &str) -> (target: Option<String>)
    ensures
        target is Some <==> target_of(source@, target_dir@) is Some,
        target is Some ==> target->0@ == target_of(source@, target_dir@)->0,
{
    match file_name_of(source) {
        Some(name) => Some(join_path(target_dir, name.as_str())),
        None => None,
    }
}

impl LinkOutcome {
    /// Whether the verdict is an action to do or to show, on which the user
    /// may be asked first.
    pub fn needs_answer(&self) -> (pending: bool)
        ensures
            pending == is_pending(self.verdict),
    {
        match self.verdict {
            Verdict::WouldLink | Verdict::WouldUnlink | Verdict::CreateLink | Verdict::RemoveLink => true,
            _ => false,
        }
    }

    /// The line that tells the user what was decided for `source`. An
    /// outcome without a target is reported with an empty target path.
    pub fn report(&self, source: &str) -> (line: String)
        ensures
            line@ == report_text(
                self.verdict,
                source@,
                match self.target {
                    Some(target) => target@,
                    None => Seq::<char>::empty(),
                },
            ),
    {
        let target: &str = match &self.target {
            Some(target) => target.as_str(),
            None => "",
        };
        proof {
            reveal_strlit("");
            assert(""@ =~= Seq::<char>::empty());
        }
        let arrow = String::from_str("'").concat(source).concat("' -> '").concat(target).concat(
            "'",
        );
        assert(arrow@ =~= "'"@ + source@ + "' -> '"@ + target@ + "'"@);
        let line = match self.verdict {
            Verdict::NoFileName => String::from_str("skipping '").concat(source).concat(
                "'  filename not found",
            ),
            Verdict::AlreadyExists => String::from_str("target '").concat(target).concat(
                "' already exists, skipping.",
            ),
            Verdict::Missing => String::from_str("target '").concat(target).concat(
                "' doesn't exists, skipping.",
            ),
            Verdict::NotASymlink => String::from_str("target '").concat(target).concat(
                "' is not a symlink, skipping.",
            ),
            Verdict::Declined => String::from_str("skipping '").concat(source).concat("' "),
            Verdict::WouldLink => String::from_str("[SIMULATE] linking ").concat(arrow.as_str()),
            Verdict::WouldUnlink => String::from_str("[SIMULATE] unlinking ").concat(
                arrow.as_str(),
            ),
            Verdict::CreateLink => String::from_str("linking ").concat(arrow.as_str()),
            Verdict::RemoveLink => String::from_str("unlinking ").concat(arrow.as_str()),
        };
        line
    }

    /// Whether carrying the verdict out changes the file system.
    pub fn mutates(&self) -> (changes: bool)
        ensures
            changes == (self.verdict == Verdict::CreateLink || self.verdict == Verdict::RemoveLink),
            !changes ==> forall|before: TargetState| state_after(self.verdict, before) == before,
    {
        match self.verdict {
            Verdict::CreateLink | Verdict::RemoveLink => true,
            _ => false,
        }
    }
}

/// Decides what to do with `source` under `target_dir`, given what the caller
/// found at the target path.
///
/// Nothing is ever overwritten: a link is created only where nothing is, and
/// only a symbolic link is removed. With `simulate` no verdict changes the
/// file system.
pub fn handle_link(
    source: &str,
    target_dir: &str,
    action: &LinkAction,
    simulate: bool,
    state: TargetState,
) -> (outcome: LinkOutcome)
    ensures
        outcome.verdict == decide(final_component(source@) is Some, *action, simulate, state),
        outcome.target is Some <==> target_of(source@, target_dir@) is Some,
        outcome.target is Some ==> outcome.target->0@ == target_of(source@, target_dir@)->0,
{
    let target = match target_path(source, target_dir) {
        Some(target) => target,
        None => {
            return LinkOutcome { verdict: Verdict::NoFileName, target: None };
        },
    };
    let verdict = match action {
        LinkAction::Link => match state {
            TargetState::Absent => if simulate {
                Verdict::WouldLink
            } else {
                Verdict::CreateLink
            },
            _ => Verdict::AlreadyExists,
        },
        LinkAction::Unlink => match state {
            TargetState::Absent => Verdict::Missing,
            TargetState::Other => Verdict::NotASymlink,
            TargetState::Symlink => if simulate {
                Verdict::WouldUnlink
            } else {
                Verdict::RemoveLink
            },
        },
    };
    LinkOutcome { verdict, target: Some(target) }
}

/// As `handle_link`, for a run that asks the user before each action:
/// `unset` chooses unlinking, `no_symlink` simulation, and `confirmed` is the
/// user's answer, which counts only where there is an action to confirm.
pub fn handle_symlink(
    file: &str,
    target_dir: &str,
    no_symlink: bool,
    unset: bool,
    state: TargetState,
    confirmed: bool,
) -> (outcome: LinkOutcome)
    ensures
        outcome.verdict == answered(
            decide(
                final_component(file@) is Some,
                if unset {
                    LinkAction::Unlink
                } else {
                    LinkAction::Link
                },
                no_symlink,
                state,
            ),
            confirmed,
        ),
        outcome.target is Some <==> target_of(file@, target_dir@) is Some,
        outcome.target is Some ==> outcome.target->0@ == target_of(file@, target_dir@)->0,
{
    let action = get_link_action(unset);
    let outcome = handle_link(file, target_dir, &action, no_symlink, state);
    if outcome.needs_answer() && !confirmed {
        LinkOutcome { verdict: Verdict::Declined, target: outcome.target }
    } else {
        outcome
    }
}

/// Linking twice is linking once: after a first run the second changes
/// nothing, and where the first created the link the second finds it there.
pub proof fn lemma_link_is_idempotent(has_name: bool, simulate: bool, state: TargetState)
    ensures
        ({
            let once = state_after(decide(has_name, LinkAction::Link, simulate, state), state);
            let again = decide(has_name, LinkAction::Link, simulate, once);
            &&& state_after(again, once) == once
            &&& has_name && !simulate ==> again == Verdict::AlreadyExists
        }),
{
}

/// Linking a candidate whose target is absent and then unlinking it leaves
/// the target absent again.
pub proof fn lemma_link_then_unlink_restores(simulate: bool)
    ensures
        ({
            let linked = state_after(
                decide(true, LinkAction::Link, simulate, TargetState::Absent),
                TargetState::Absent,
            );
            state_after(decide(true, LinkAction::Unlink, simulate, linked), linked)
                == TargetState::Absent
        }),
        state_after(
            decide(true, LinkAction::Link, false, TargetState::Absent),
            TargetState::Absent,
        ) == TargetState::Symlink,
        decide(true, LinkAction::Unlink, false, TargetState::Symlink) == Verdict::RemoveLink,
{
}

/// Unlinking never removes what is not a symbolic link, simulated or not,
/// confirmed or not.
pub proof fn lemma_unlink_spares_files(has_name: bool, simulate: bool, confirmed: bool)
    ensures
        ({
            let verdict = decide(has_name, LinkAction::Unlink, simulate, TargetState::Other);
            &&& verdict != Verdict::RemoveLink
            &&& answered(verdict, confirmed) != Verdict::RemoveLink
            &&& state_after(verdict, TargetState::Other) == TargetState::Other
            &&& has_name ==> verdict == Verdict::NotASymlink
        }),
{
}

/// A simulated run leaves every target as it found it.
pub proof fn lemma_simulation_changes_nothing(
    has_name: bool,
    action: LinkAction,
    state: TargetState,
    confirmed: bool,
)
    ensures
        state_after(decide(has_name, action, true, state), state) == state,
        state_after(answered(decide(has_name, action, true, state), confirmed), state) == state,
{
}

/// Nothing is overwritten and nothing but a link removed: a link is created
/// only at an absent target, and only a symbolic link is removed.
pub proof fn lemma_never_overwrites(
    has_name: bool,
    action: LinkAction,
    simulate: bool,
    state: TargetState,
)
    ensures
        decide(has_name, action, simulate, state) == Verdict::CreateLink ==> state
            == TargetState::Absent && action == LinkAction::Link && !simulate,
        decide(has_name, action, simulate, state) == Verdict::RemoveLink ==> state
            == TargetState::Symlink && action == LinkAction::Unlink && !simulate,
{
}

} // verus!
