//! Decisions of the `setup` and `preflight` commands: which flags go
//! together, whether a download starts, how an interactive answer is read,
//! and whether a profile may be used.

use vstd::prelude::*;
use crate::error::LaunchError;
use crate::text::{chars_of, parse_u64_chars, parsed_u64, trim_bounds, trimmed};

verus! {

/// Rejects flag combinations that would make non-interactive setup
/// ambiguous: accepting a download needs an explicit model, and accepting
/// and skipping exclude each other.
pub fn check_setup_flags(model_requested: bool, accept_download: bool, skip_download: bool) -> (r: Result<(), LaunchError>)
    ensures
        accept_download && !model_requested ==> r == Err::<(), LaunchError>(LaunchError::AcceptWithoutModel),
        accept_download && model_requested && skip_download ==> r == Err::<(), LaunchError>(
            LaunchError::AcceptAndSkip,
        ),
        !accept_download ==> r == Ok::<(), LaunchError>(()),
        accept_download && model_requested && !skip_download ==> r == Ok::<(), LaunchError>(()),
{
    if accept_download && !model_requested {
        return Err(LaunchError::AcceptWithoutModel);
    }
    if accept_download && skip_download {
        return Err(LaunchError::AcceptAndSkip);
    }
    Ok(())
}

/// What setup does about downloading once the choice is saved.
#[derive(Clone, Copy, Debug, PartialEq, Eq, Structural)]
pub enum DownloadDecision {
    /// `--skip-download`: tell the user how to download later.
    Skip,
    /// Interactive setup: ask the user.
    Confirm,
    /// Download now.
    Start,
    /// Leave the download for later; the choice stays saved.
    Decline,
}

/// What setup does about downloading: skipped on request; with an
/// explicit model only when `--accept-download` was given; otherwise the
/// user is asked.
pub open spec fn decision_for(model_requested: bool, accept_download: bool, skip_download: bool) -> DownloadDecision {
    if skip_download {
        DownloadDecision::Skip
    } else if model_requested {
        if accept_download {
            DownloadDecision::Start
        } else {
            DownloadDecision::Decline
        }
    } else {
        DownloadDecision::Confirm
    }
}

/// Whether setup downloads once the choice is saved.
pub fn download_decision(model_requested: bool, accept_download: bool, skip_download: bool) -> (r:
    DownloadDecision)
    ensures
        r == decision_for(model_requested, accept_download, skip_download),
{
    if skip_download {
        DownloadDecision::Skip
    } else if model_requested {
        if accept_download {
            DownloadDecision::Start
        } else {
            DownloadDecision::Decline
        }
    } else {
        DownloadDecision::Confirm
    }
}

/// Setup never downloads without an explicit yes: without asking, only
/// when a model was named and `--accept-download` given (and not
/// `--skip-download`); and `--accept-download` without a model is refused
/// before anything is saved.
pub proof fn setup_downloads_only_when_accepted(model_requested: bool, accept_download: bool, skip_download: bool)
    ensures
        decision_for(model_requested, accept_download, skip_download) == DownloadDecision::Start
            ==> model_requested && accept_download && !skip_download,
        decision_for(model_requested, accept_download, skip_download) == DownloadDecision::Confirm
            ==> !model_requested,
{
}

/// The ASCII lower-case form of a character; others are unchanged.
pub open spec fn lower_char(c: char) -> char {
    if 'A' <= c <= 'Z' {
        ((c as u32) + 32) as char
    } else {
        c
    }
}

fn lower(c: char) -> (r: char)
    ensures
        r == lower_char(c),
{
    if 'A' <= c && c <= 'Z' {
        ((c as u8) + 32) as char
    } else {
        c
    }
}

/// An answer is a yes when, trimmed and in ASCII lower case, it reads `y`
/// or `yes`.
pub open spec fn affirmative(answer: Seq<char>) -> bool {
    let t = trimmed(answer).map_values(|c: char| lower_char(c));
    t == "y"@ || t == "yes"@
}

/// Whether a typed answer confirms.
pub fn is_affirmative(answer: &str) -> (r: bool)
    ensures
        r == affirmative(answer@),
{
    let v = chars_of(answer);
    let (s, e) = trim_bounds(&v);
    let ghost t = trimmed(answer@).map_values(|c: char| lower_char(c));
    proof {
        reveal_strlit("y");
        reveal_strlit("yes");
        assert(t.len() == e - s);
        assert(forall|i: int| 0 <= i < t.len() ==> t[i] == lower_char(v@[s + i]));
    }
    proof {
        assert("y"@.len() == 1 && "y"@[0] == 'y');
        assert("yes"@.len() == 3 && "yes"@[0] == 'y' && "yes"@[1] == 'e' && "yes"@[2] == 's');
    }
    if e - s == 1 {
        let r = lower(v[s]) == 'y';
        proof {
            if r {
                assert(t =~= "y"@);
            } else {
                assert(t[0] != 'y');
            }
        }
        r
    } else if e - s == 3 {
        let r = lower(v[s]) == 'y' && lower(v[s + 1]) == 'e' && lower(v[s + 2]) == 's';
        proof {
            if r {
                assert(t =~= "yes"@);
            } else {
                assert(t[0] != 'y' || t[1] != 'e' || t[2] != 's');
            }
        }
        r
    } else {
        false
    }
}

/// What `str::parse::<usize>` gives.
pub open spec fn parsed_usize(s: Seq<char>) -> Option<usize> {
    match parsed_u64(s) {
        Some(v) => if v <= usize::MAX {
            Some(v as usize)
        } else {
            None
        },
        None => None,
    }
}

/// The list position an answer picks among `count` offered profiles: the
/// typed number minus one (`0` picks the first), or an error when the
/// answer is not a number or the position is past the list.
pub open spec fn selection(answer: Seq<char>, count: usize) -> Result<usize, LaunchError> {
    match parsed_usize(trimmed(answer)) {
        None => Err(LaunchError::NotANumber),
        Some(n) => {
            let index: usize = if n == 0 {
                0
            } else {
                (n - 1) as usize
            };
            if index < count {
                Ok(index)
            } else {
                Err(LaunchError::SelectionOutOfRange)
            }
        },
    }
}

/// Reads the profile number typed at the interactive prompt.
pub fn parse_selection(answer: &str, count: usize) -> (r: Result<usize, LaunchError>)
    ensures
        r == selection(answer@, count),
{
    let v = chars_of(answer);
    let (s, e) = trim_bounds(&v);
    let parsed = parse_u64_chars(&v, s, e);
    let n: usize = match parsed {
        None => return Err(LaunchError::NotANumber),
        Some(value) => {
            if value > usize::MAX as u64 {
                return Err(LaunchError::NotANumber);
            }
            value as usize
        },
    };
    let index = n.saturating_sub(1);
    if index < count {
        Ok(index)
    } else {
        Err(LaunchError::SelectionOutOfRange)
    }
}

/// `--skip-download` always skips the download, whether the profile was
/// named or picked interactively, and nothing else skips it.
pub proof fn skip_download_always_skips(model_requested: bool, accept_download: bool, skip_download: bool)
    ensures
        (decision_for(model_requested, accept_download, skip_download) == DownloadDecision::Skip)
            <==> skip_download,
{
}

} // verus!
