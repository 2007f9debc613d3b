//! Branch names and commit descriptions for an issue, and the choice of the
//! version control system.

use crate::text::{alphanumeric, byte_len, count_fitting, fitting_len, lemma_fitting_len, lowercase};
use vstd::prelude::*;

verus! {

/// A version control system.
#[derive(Debug, Clone, Copy, PartialEq, Eq, Structural)]
pub enum Vcs {
    /// Git.
    Git,
    /// Jujutsu.
    Jj,
}

impl Vcs {
    /// The name of the system's command.
    pub open spec fn spec_name(self) -> Seq<char> {
        match self {
            Vcs::Git => "git"@,
            Vcs::Jj => "jj"@,
        }
    }

    /// The name of the system's command.
    pub fn name(&self) -> (name: &'static str)
        ensures
            name@ == self.spec_name(),
    {
        match self {
            Vcs::Git => "git",
            Vcs::Jj => "jj",
        }
    }
}

/// A check that tells whether the working directory belongs to a repository.
#[derive(Debug, Clone, Copy, PartialEq, Eq, Structural)]
pub enum VcsProbe {
    /// Is there a directory `.jj`?
    JjDirectory,
    /// Does `jj status` succeed?
    JjStatus,
    /// Is there a directory `.git`?
    GitDirectory,
    /// Does `git status` succeed?
    GitStatus,
}

/// What follows from the outcome of a probe.
#[derive(Debug, Clone, Copy, PartialEq, Eq, Structural)]
pub enum Detection {
    /// The working directory belongs to a repository of this system.
    Found(Vcs),
    /// Nothing is known yet; this probe comes next.
    Try(VcsProbe),
    /// Every probe failed.
    NotARepository,
}

impl VcsProbe {
    /// The first probe to make.
    pub fn first() -> (probe: VcsProbe)
        ensures
            probe == VcsProbe::JjDirectory,
    {
        VcsProbe::JjDirectory
    }

    /// The system that a success of this probe shows.
    pub open spec fn shows(self) -> Vcs {
        match self {
            VcsProbe::JjDirectory => Vcs::Jj,
            VcsProbe::JjStatus => Vcs::Jj,
            VcsProbe::GitDirectory => Vcs::Git,
            VcsProbe::GitStatus => Vcs::Git,
        }
    }

    /// The probe that follows a failure of this one.
    pub open spec fn following(self) -> Option<VcsProbe> {
        match self {
            VcsProbe::JjDirectory => Some(VcsProbe::JjStatus),
            VcsProbe::JjStatus => Some(VcsProbe::GitDirectory),
            VcsProbe::GitDirectory => Some(VcsProbe::GitStatus),
            VcsProbe::GitStatus => None,
        }
    }
}

/// Decides what follows from the outcome of a probe: a success shows the
/// system, a failure leads to the next probe, and the failure of the last
/// one shows that there is no repository. Jujutsu is looked for before Git.
pub fn detect_step(probe: VcsProbe, succeeded: bool) -> (next: Detection)
    ensures
        succeeded ==> next == Detection::Found(probe.shows()),
        !succeeded ==> next == match probe.following() {
            Some(following) => Detection::Try(following),
            None => Detection::NotARepository,
        },
{
    if succeeded {
        match probe {
            VcsProbe::JjDirectory => Detection::Found(Vcs::Jj),
            VcsProbe::JjStatus => Detection::Found(Vcs::Jj),
            VcsProbe::GitDirectory => Detection::Found(Vcs::Git),
            VcsProbe::GitStatus => Detection::Found(Vcs::Git),
        }
    } else {
        match probe {
            VcsProbe::JjDirectory => Detection::Try(VcsProbe::JjStatus),
            VcsProbe::JjStatus => Detection::Try(VcsProbe::GitDirectory),
            VcsProbe::GitDirectory => Detection::Try(VcsProbe::GitStatus),
            VcsProbe::GitStatus => Detection::NotARepository,
        }
    }
}

/// Why no version control system could be chosen.
#[derive(Debug, Clone, Copy, PartialEq, Eq, Structural)]
pub enum VcsError {
    /// The working directory belongs to no repository.
    NotARepository,
}

impl VcsError {
    /// The message to show for the error.
    pub fn message(&self) -> (text: &'static str)
        ensures
            text@ == "Not in a git or jj repository"@,
    {
        "Not in a git or jj repository"
    }
}

/// The system to use: the one asked for, or else the one detected.
pub fn get_vcs(vcs_flag: Option<Vcs>, detected: Option<Vcs>) -> (chosen: Result<Vcs, VcsError>)
    ensures
        chosen == match vcs_flag {
            Some(vcs) => Ok::<Vcs, VcsError>(vcs),
            None => match detected {
                Some(vcs) => Ok::<Vcs, VcsError>(vcs),
                None => Err::<Vcs, VcsError>(VcsError::NotARepository),
            },
        },
{
    match vcs_flag {
        Some(vcs) => Ok(vcs),
        None => match detected {
            Some(vcs) => Ok(vcs),
            None => Err(VcsError::NotARepository),
        },
    }
}

/// A text with every character that is no letter or digit replaced by a
/// dash.
pub open spec fn dashed(text: Seq<char>) -> Seq<char> {
    Seq::new(
        text.len(),
        |i: int|
            if alphanumeric(text[i]) {
                text[i]
            } else {
                '-'
            },
    )
}

/// The words of a text between dashes, joined by single dashes: dashes at
/// either end are gone and runs of dashes have become one.
pub open spec fn squeezed(text: Seq<char>) -> Seq<char>
    decreases text.len(),
{
    if text.len() == 0 {
        text
    } else {
        let before = squeezed(text.drop_last());
        if text.last() == '-' {
            before
        } else if text.len() >= 2 && text[text.len() - 2] == '-' && before.len() > 0 {
            before.push('-').push(text.last())
        } else {
            before.push(text.last())
        }
    }
}

/// A text without the dashes at its end.
pub open spec fn without_trailing_dashes(text: Seq<char>) -> Seq<char>
    decreases text.len(),
{
    if text.len() > 0 && text.last() == '-' {
        without_trailing_dashes(text.drop_last())
    } else {
        text
    }
}

/// A slug cut to at most `limit` bytes of UTF-8, without dashes at the cut.
/// A character that would reach over the limit is left out as a whole.
pub open spec fn cut_slug(slug: Seq<char>, limit: nat) -> Seq<char> {
    if byte_len(slug) > limit {
        without_trailing_dashes(slug.take(fitting_len(slug, limit) as int))
    } else {
        slug
    }
}

/// The longest slug in a branch name, in bytes.
pub const SLUG_LIMIT: usize = 50;

/// The branch name of an issue: the identifier in lower case, a slash, and
/// the slug of the title.
pub open spec fn branch_name(identifier: Seq<char>, title: Seq<char>) -> Seq<char> {
    lowercase(identifier) + seq!['/'] + cut_slug(
        squeezed(dashed(lowercase(title))),
        SLUG_LIMIT as nat,
    )
}

/// Replaces every character that is no letter or digit by a dash.
pub fn dash_non_alphanumeric(text: &str) -> (out: String)
    ensures
        out@ == dashed(text@),
{
    let len: usize = text.unicode_len();
    let mut out: String = String::new();
    let mut i: usize = 0;
    while i < len
        invariant
            i <= len,
            len == text@.len(),
            out@ == dashed(text@).take(i as int),
        decreases len - i,
    {
        let c: char = text.get_char(i);
        let ghost before = out@;
        if c.is_alphanumeric() {
            out.push(c);
        } else {
            out.push('-');
        }
        assert(out@ =~= dashed(text@).take(i + 1));
        i += 1;
    }
    assert(dashed(text@).take(len as int) =~= dashed(text@));
    out
}

/// Joins the words between dashes by single dashes.
pub fn squeeze_dashes(text: &str) -> (out: String)
    ensures
        out@ == squeezed(text@),
{
    let len: usize = text.unicode_len();
    let mut out: String = String::new();
    let mut after_dash: bool = false;
    let mut empty: bool = true;
    let mut i: usize = 0;
    assert(text@.take(0) =~= Seq::<char>::empty());
    while i < len
        invariant
            i <= len,
            len == text@.len(),
            out@ == squeezed(text@.take(i as int)),
            empty == (out@.len() == 0),
            after_dash == (i > 0 && text@[i - 1] == '-'),
        decreases len - i,
    {
        let c: char = text.get_char(i);
        proof {
            assert(text@.take(i + 1).drop_last() =~= text@.take(i as int));
        }
        if c != '-' {
            if after_dash && !empty {
                out.push('-');
            }
            out.push(c);
            empty = false;
        }
        after_dash = c == '-';
        i += 1;
    }
    assert(text@.take(len as int) =~= text@);
    out
}

/// Cuts a slug to at most `limit` bytes and drops the dashes at the cut.
pub fn truncate_slug(slug: &str, limit: usize) -> (out: String)
    ensures
        out@ == cut_slug(slug@, limit as nat),
{
    proof {
        lemma_fitting_len(slug@, limit as nat);
    }
    let len: usize = slug.unicode_len();
    let fitting: usize = count_fitting(slug, limit);
    if fitting == len {
        return slug.to_owned();
    }
    let mut end: usize = fitting;
    while end > 0 && slug.get_char(end - 1) == '-'
        invariant
            end <= fitting < len,
            len == slug@.len(),
            without_trailing_dashes(slug@.take(end as int)) == without_trailing_dashes(
                slug@.take(fitting as int),
            ),
        decreases end,
    {
        proof {
            assert(slug@.take(end as int).drop_last() =~= slug@.take(end - 1));
        }
        end -= 1;
    }
    slug.substring_char(0, end).to_owned()
}

/// The branch name of an issue.
pub fn generate_branch_name(identifier: &str, title: &str) -> (name: String)
    ensures
        name@ == branch_name(identifier@, title@),
{
    let lower_title: String = title.to_lowercase();
    let dashed_title: String = dash_non_alphanumeric(lower_title.as_str());
    let slug: String = squeeze_dashes(dashed_title.as_str());
    let slug: String = truncate_slug(slug.as_str(), SLUG_LIMIT);
    let mut name: String = identifier.to_lowercase();
    name.push('/');
    name.append(slug.as_str());
    name
}

/// The branch to use for an issue: the one asked for, or else the one that
/// the service names, or else the one made from identifier and title.
pub open spec fn chosen_branch(
    custom: Option<Seq<char>>,
    named: Seq<char>,
    identifier: Seq<char>,
    title: Seq<char>,
) -> Seq<char> {
    match custom {
        Some(branch) => branch,
        None => if named.len() > 0 {
            named
        } else {
            branch_name(identifier, title)
        },
    }
}

/// Chooses the branch to use for an issue.
pub fn choose_branch_name(
    custom_branch: Option<String>,
    named_branch: &str,
    identifier: &str,
    title: &str,
) -> (branch: String)
    ensures
        branch@ == chosen_branch(
            match custom_branch {
                Some(b) => Some(b@),
                None => None,
            },
            named_branch@,
            identifier@,
            title@,
        ),
{
    match custom_branch {
        Some(branch) => branch,
        None => {
            if named_branch.unicode_len() > 0 {
                named_branch.to_owned()
            } else {
                generate_branch_name(identifier, title)
            }
        },
    }
}

/// The description of a change made for an issue: a headline, and trailers
/// that name the issue and its address.
pub open spec fn jj_description(identifier: Seq<char>, title: Seq<char>, url: Seq<char>) -> Seq<
    char,
> {
    identifier + ": "@ + title + "\n\nLinear-Issue: "@ + identifier + "\nLinear-URL: "@ + url
}

/// The description of a change made for an issue.
pub fn generate_jj_description(identifier: &str, title: &str, url: &str) -> (text: String)
    ensures
        text@ == jj_description(identifier@, title@, url@),
{
    let mut text: String = identifier.to_owned();
    text.append(": ");
    text.append(title);
    text.append("\n\nLinear-Issue: ");
    text.append(identifier);
    text.append("\nLinear-URL: ");
    text.append(url);
    text
}

} // verus!
