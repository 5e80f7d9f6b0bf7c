//! The failure taxonomy: structured error kinds, errors attributed to the
//! action that raised them, and the folding rules that aggregate sibling
//! failures without masking any.

use vstd::prelude::*;

verus! {

/// The unique tag of an action variant, used for attribution and as the
/// discriminator of any serialized form.
#[derive(Clone, Copy, Debug)]
pub struct ActionTag(pub &'static str);

impl View for ActionTag {
    type V = Seq<char>;

    open spec fn view(&self) -> Seq<char> {
        self.0@
    }
}

/// A structured reason for a failure.
///
/// The set is closed but for `Custom`, which lets a concrete operation
/// carry a domain-specific message that still composes into the taxonomy;
/// `Multiple` is the one aggregate variant, holding the ordered failures of
/// more than one sibling from the same execute or revert call.
#[derive(Debug)]
pub enum ActionErrorKind {
    /// Reading the node at a path failed.
    Read(String),
    /// Writing the node at a path failed.
    Write(String),
    /// Opening the node at a path failed.
    Open(String),
    /// Removing the node at a path failed.
    Remove(String),
    /// Renaming the first path to the second failed.
    Rename(String, String),
    /// Symlinking the first path to the second failed.
    Symlink(String, String),
    /// Copying the first path to the second failed.
    Copy(String, String),
    /// Creating a directory at a path failed.
    CreateDirectory(String),
    /// Listing a directory at a path failed.
    ReadDir(String),
    /// Reading the target of a symlink at a path failed.
    ReadSymlink(String),
    /// Changing the owner of a path failed.
    Chown(String),
    /// A subprocess exited with failure; the command and its captured
    /// output are kept for diagnosis.
    CommandFailed { command: String, output: String },
    /// A URL carried a scheme no fetcher supports.
    UnknownUrlScheme,
    /// The unpacked tarball did not hold exactly one package root.
    MalformedBinaryTarball,
    /// A path that had to be a directory was something else.
    PathWasNotDirectory(String),
    /// The groups database has no group of this name.
    NoGroup(String),
    /// The host is not booted with systemd or lacks `systemctl`.
    SystemdMissing,
    /// A conflicting file already exists at a path.
    FileExists(String),
    /// A conflicting symlink already exists at a path.
    SymlinkExists(String),
    /// A conflicting directory already exists at a path.
    DirExists(String),
    /// The ordered failures of more than one sibling.
    Multiple(Vec<ActionError>),
    /// A domain-specific failure, opaque to the engine.
    Custom(String),
}

/// A failure attributed to the action variant that raised it.
#[derive(Debug)]
pub struct ActionError {
    pub action_tag: ActionTag,
    pub kind: ActionErrorKind,
}

impl ActionError {
    /// Attribute `kind` to the action tagged `tag`.
    pub fn new(tag: ActionTag, kind: ActionErrorKind) -> (r: ActionError)
        ensures
            r.action_tag == tag,
            r.kind == kind,
    {
        ActionError { action_tag: tag, kind }
    }
}

/// Zero failures are success; a single failure is propagated unwrapped;
/// two or more are aggregated under `tag` so none is dropped.
pub fn fold_errors(tag: ActionTag, errors: Vec<ActionError>) -> (r: Result<(), ActionError>)
    ensures
        folds_to(errors@, tag, r),
{
    if errors.len() == 0 {
        Ok(())
    } else if errors.len() == 1 {
        let mut errors = errors;
        Err(errors.remove(0))
    } else {
        Err(ActionError { action_tag: tag, kind: ActionErrorKind::Multiple(errors) })
    }
}

/// How a list of collected sibling failures determines a call's result.
pub open spec fn folds_to(
    errors: Seq<ActionError>,
    tag: ActionTag,
    r: Result<(), ActionError>,
) -> bool {
    match r {
        Ok(()) => errors.len() == 0,
        Err(e) => {
            if errors.len() == 1 {
                e == errors[0]
            } else {
                errors.len() >= 2 && e.action_tag@ == tag@ && (e.kind
                    matches ActionErrorKind::Multiple(es) && es@ == errors)
            }
        },
    }
}

/// Attribute each bare kind to the action tagged `tag`.
pub fn wrap_kinds(tag: ActionTag, kinds: Vec<ActionErrorKind>) -> (r: Vec<ActionError>)
    ensures
        r@.len() == kinds@.len(),
        forall|i: int|
            0 <= i < r@.len() ==> #[trigger] r@[i].action_tag == tag && r@[i].kind == kinds@[i],
{
    let mut out: Vec<ActionError> = Vec::new();
    let mut kinds = kinds;
    let n = kinds.len();
    let ghost all = kinds@;
    let mut i: usize = 0;
    while i < n
        invariant
            n == all.len(),
            kinds@ == all.skip(i as int),
            0 <= i <= n,
            out@.len() == i,
            forall|j: int|
                0 <= j < i ==> #[trigger] out@[j].action_tag == tag && out@[j].kind == all[j],
        decreases n - i,
    {
        let kind = kinds.remove(0);
        proof {
            assert(all.skip(i as int)[0] == all[i as int]);
            assert(all.skip(i as int).remove(0) =~= all.skip(i + 1));
        }
        out.push(ActionError { action_tag: tag, kind });
        i += 1;
    }
    out
}

} // verus!
