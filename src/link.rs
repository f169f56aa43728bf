//! Replacing a configuration entry by a symlink into the store.
//!
//! The decisions are made here, from what a symlink-aware stat reports and
//! from how each filesystem step went: which removal the entry at the target
//! needs, and which outcome of a step is an error. `LinkSite` models the one
//! path that a link touches, with the semantics of the removal and creation
//! calls, so that the whole reconciliation is proved against it. Replacing an
//! entry is destructive: nothing of the old entry is kept.
use vstd::prelude::*;

use crate::error::DotmanError;

verus! {

/// What a symlink-aware stat finds at a path.
#[derive(Clone, Copy, Debug, PartialEq, Eq, Structural)]
pub enum EntryKind {
    Absent,
    Symlink,
    Directory,
    File,
}

/// How the entry at a link target is removed.
#[derive(Clone, Copy, Debug, PartialEq, Eq, Structural)]
pub enum Removal {
    /// Nothing stands there.
    Keep,
    /// Remove the symlink itself, never what it points to.
    Unlink,
    /// Remove the directory and everything below it.
    RemoveTree,
    /// Remove the single file.
    RemoveFile,
}

/// How one filesystem step went.
#[derive(Clone, Copy, Debug, PartialEq, Eq, Structural)]
pub enum OpOutcome {
    Done,
    NotFound,
    Failed,
}

/// The steps of one link, decided before anything is changed.
#[derive(Clone, Copy, Debug, PartialEq, Eq, Structural)]
pub struct LinkPlan {
    /// The target's parent directory must be created first.
    pub create_parent: bool,
    /// What to do with the entry at the target.
    pub removal: Removal,
}

pub open spec fn classified(found: bool, is_symlink: bool, is_dir: bool) -> EntryKind {
    if !found {
        EntryKind::Absent
    } else if is_symlink {
        EntryKind::Symlink
    } else if is_dir {
        EntryKind::Directory
    } else {
        EntryKind::File
    }
}

/// The kind of an entry from a symlink-aware stat: whether anything was
/// found, and whether it is a symlink or a directory. A symlink counts as a
/// symlink whatever it points to, a dangling one included.
pub fn classify_entry(found: bool, is_symlink: bool, is_dir: bool) -> (r: EntryKind)
    ensures
        r == classified(found, is_symlink, is_dir),
{
    if !found {
        EntryKind::Absent
    } else if is_symlink {
        EntryKind::Symlink
    } else if is_dir {
        EntryKind::Directory
    } else {
        EntryKind::File
    }
}

pub open spec fn removal_of(kind: EntryKind) -> Removal {
    match kind {
        EntryKind::Absent => Removal::Keep,
        EntryKind::Symlink => Removal::Unlink,
        EntryKind::Directory => Removal::RemoveTree,
        EntryKind::File => Removal::RemoveFile,
    }
}

/// The removal that an entry of the given kind needs.
pub fn removal_for(kind: EntryKind) -> (r: Removal)
    ensures
        r == removal_of(kind),
{
    match kind {
        EntryKind::Absent => Removal::Keep,
        EntryKind::Symlink => Removal::Unlink,
        EntryKind::Directory => Removal::RemoveTree,
        EntryKind::File => Removal::RemoveFile,
    }
}

/// Fails fast with `SourceNotFound` where the repository to link is missing.
pub fn check_source(source_exists: bool) -> (r: Result<(), DotmanError>)
    ensures
        source_exists <==> r is Ok,
        !source_exists ==> r == Err::<(), DotmanError>(DotmanError::SourceNotFound),
{
    if source_exists {
        Ok(())
    } else {
        Err(DotmanError::SourceNotFound)
    }
}

/// The kind of the entry at a link target from how its symlink-aware stat
/// went and, where it found something, whether that is a symlink or a
/// directory. A stat that fails for another reason than a missing entry
/// means that the entry cannot be removed.
pub fn target_kind(stat: OpOutcome, is_symlink: bool, is_dir: bool) -> (r: Result<
    EntryKind,
    DotmanError,
>)
    ensures
        stat == OpOutcome::Done ==> r == Ok::<EntryKind, DotmanError>(
            classified(true, is_symlink, is_dir),
        ),
        stat == OpOutcome::NotFound ==> r == Ok::<EntryKind, DotmanError>(EntryKind::Absent),
        stat == OpOutcome::Failed ==> r == Err::<EntryKind, DotmanError>(
            DotmanError::RemovalFailed,
        ),
{
    match stat {
        OpOutcome::Done => Ok(classify_entry(true, is_symlink, is_dir)),
        OpOutcome::NotFound => Ok(classify_entry(false, false, false)),
        OpOutcome::Failed => Err(DotmanError::RemovalFailed),
    }
}

/// Decides the steps of a link. A missing source is refused before any
/// step, so an existing target is never removed without a replacement.
pub fn plan_link(source_exists: bool, parent_exists: bool, target: EntryKind) -> (r: Result<
    LinkPlan,
    DotmanError,
>)
    ensures
        !source_exists <==> r == Err::<LinkPlan, DotmanError>(DotmanError::SourceNotFound),
        source_exists ==> r == Ok::<LinkPlan, DotmanError>(
            (LinkPlan { create_parent: !parent_exists, removal: removal_of(target) }),
        ),
{
    check_source(source_exists)?;
    Ok(LinkPlan { create_parent: !parent_exists, removal: removal_for(target) })
}

/// The result of creating the target's parent directory.
pub fn parent_status(outcome: OpOutcome) -> (r: Result<(), DotmanError>)
    ensures
        outcome == OpOutcome::Done <==> r is Ok,
        r is Err ==> r == Err::<(), DotmanError>(DotmanError::TargetDirUnwritable),
{
    match outcome {
        OpOutcome::Done => Ok(()),
        _ => Err(DotmanError::TargetDirUnwritable),
    }
}

/// The result of a removal. An entry that has vanished since it was
/// inspected counts as removed.
pub fn removal_status(outcome: OpOutcome) -> (r: Result<(), DotmanError>)
    ensures
        outcome != OpOutcome::Failed <==> r is Ok,
        r is Err ==> r == Err::<(), DotmanError>(DotmanError::RemovalFailed),
{
    match outcome {
        OpOutcome::Failed => Err(DotmanError::RemovalFailed),
        _ => Ok(()),
    }
}

/// The result of creating the symlink.
pub fn symlink_status(outcome: OpOutcome) -> (r: Result<(), DotmanError>)
    ensures
        outcome == OpOutcome::Done <==> r is Ok,
        r is Err ==> r == Err::<(), DotmanError>(DotmanError::SymlinkCreationFailed),
{
    match outcome {
        OpOutcome::Done => Ok(()),
        _ => Err(DotmanError::SymlinkCreationFailed),
    }
}

/// The filesystem step that a link takes next.
#[derive(Clone, Copy, Debug, PartialEq, Eq, Structural)]
pub enum LinkAction {
    CreateParent,
    Remove(Removal),
    CreateSymlink,
    /// The target is a symlink to the source: nothing is left to do.
    Finish,
}

pub open spec fn first_action_of(plan: LinkPlan) -> LinkAction {
    if plan.create_parent {
        LinkAction::CreateParent
    } else {
        LinkAction::Remove(plan.removal)
    }
}

/// The first step of a plan.
pub fn first_link_action(plan: &LinkPlan) -> (r: LinkAction)
    ensures
        r == first_action_of(*plan),
{
    if plan.create_parent {
        LinkAction::CreateParent
    } else {
        LinkAction::Remove(plan.removal)
    }
}

/// The step after `last`, given how it went: the parent is created first,
/// then the old entry is removed, then the symlink is created. A step that
/// fails ends the link with its error.
pub open spec fn next_action_of(plan: LinkPlan, last: LinkAction, outcome: OpOutcome) -> Result<
    LinkAction,
    DotmanError,
> {
    match last {
        LinkAction::CreateParent => if outcome == OpOutcome::Done {
            Ok(LinkAction::Remove(plan.removal))
        } else {
            Err(DotmanError::TargetDirUnwritable)
        },
        LinkAction::Remove(_) => if outcome != OpOutcome::Failed {
            Ok(LinkAction::CreateSymlink)
        } else {
            Err(DotmanError::RemovalFailed)
        },
        LinkAction::CreateSymlink => if outcome == OpOutcome::Done {
            Ok(LinkAction::Finish)
        } else {
            Err(DotmanError::SymlinkCreationFailed)
        },
        LinkAction::Finish => Ok(LinkAction::Finish),
    }
}

/// The step of a link that follows `last`, which went as `outcome` says.
pub fn next_link_action(plan: &LinkPlan, last: LinkAction, outcome: OpOutcome) -> (r: Result<
    LinkAction,
    DotmanError,
>)
    ensures
        r == next_action_of(*plan, last, outcome),
{
    match last {
        LinkAction::CreateParent => {
            parent_status(outcome)?;
            Ok(LinkAction::Remove(plan.removal))
        },
        LinkAction::Remove(_) => {
            removal_status(outcome)?;
            Ok(LinkAction::CreateSymlink)
        },
        LinkAction::CreateSymlink => {
            symlink_status(outcome)?;
            Ok(LinkAction::Finish)
        },
        LinkAction::Finish => Ok(LinkAction::Finish),
    }
}

pub open spec fn steps_left(a: LinkAction) -> nat {
    match a {
        LinkAction::CreateParent => 3,
        LinkAction::Remove(_) => 2,
        LinkAction::CreateSymlink => 1,
        LinkAction::Finish => 0,
    }
}

/// An entry of the filesystem.
#[derive(Clone, Debug)]
pub enum Node {
    File { content: Vec<u8> },
    Directory { entries: Vec<String> },
    Symlink { dest: String },
}

/// What an entry holds, as values.
pub enum NodeView {
    File { content: Seq<u8> },
    Directory { entries: Seq<Seq<char>> },
    Symlink { dest: Seq<char> },
}

impl View for Node {
    type V = NodeView;

    open spec fn view(&self) -> NodeView {
        match self {
            Node::File { content } => NodeView::File { content: content@ },
            Node::Directory { entries } => NodeView::Directory {
                entries: entries@.map_values(|e: String| e@),
            },
            Node::Symlink { dest } => NodeView::Symlink { dest: dest@ },
        }
    }
}

/// The one place that a link changes: a target path, and whether its parent
/// directory exists.
#[derive(Clone, Debug)]
pub struct LinkSite {
    pub parent_exists: bool,
    pub target: Option<Node>,
}

pub struct SiteView {
    pub parent_exists: bool,
    pub target: Option<NodeView>,
}

impl View for LinkSite {
    type V = SiteView;

    open spec fn view(&self) -> SiteView {
        SiteView {
            parent_exists: self.parent_exists,
            target: match self.target {
                Some(n) => Some(n@),
                None => None,
            },
        }
    }
}

pub open spec fn kind_of(t: Option<NodeView>) -> EntryKind {
    match t {
        None => EntryKind::Absent,
        Some(NodeView::Symlink { .. }) => EntryKind::Symlink,
        Some(NodeView::Directory { .. }) => EntryKind::Directory,
        Some(NodeView::File { .. }) => EntryKind::File,
    }
}

/// What a removal call does to an entry: removing a file or a symlink by
/// unlinking fails on a directory; removing a tree fails on a file and
/// removes a symlink itself, without following it.
pub open spec fn removed(t: Option<NodeView>, how: Removal) -> (OpOutcome, Option<NodeView>) {
    match how {
        Removal::Keep => (OpOutcome::Done, t),
        Removal::Unlink | Removal::RemoveFile => match t {
            None => (OpOutcome::NotFound, t),
            Some(NodeView::Directory { .. }) => (OpOutcome::Failed, t),
            Some(_) => (OpOutcome::Done, None),
        },
        Removal::RemoveTree => match t {
            None => (OpOutcome::NotFound, t),
            Some(NodeView::File { .. }) => (OpOutcome::Failed, t),
            Some(_) => (OpOutcome::Done, None),
        },
    }
}

/// What creating a symlink to `source` does: it needs the parent directory
/// and a free target.
pub open spec fn symlinked(v: SiteView, source: Seq<char>) -> (OpOutcome, SiteView) {
    if !v.parent_exists {
        (OpOutcome::NotFound, v)
    } else if v.target is Some {
        (OpOutcome::Failed, v)
    } else {
        (
            OpOutcome::Done,
            SiteView { parent_exists: true, target: Some(NodeView::Symlink { dest: source }) },
        )
    }
}

/// The outcome of linking `source` at the site: refused when the source is
/// missing, leaving the site as it was; otherwise the target is a symlink to
/// `source`, whatever stood there before.
pub open spec fn link_effect(v: SiteView, source: Seq<char>, source_exists: bool) -> (
    Result<(), DotmanError>,
    SiteView,
) {
    if !source_exists {
        (Err(DotmanError::SourceNotFound), v)
    } else {
        (
            Ok(()),
            SiteView { parent_exists: true, target: Some(NodeView::Symlink { dest: source }) },
        )
    }
}

impl LinkSite {
    /// What a symlink-aware stat reports of the target.
    pub fn kind(&self) -> (r: EntryKind)
        ensures
            r == kind_of(self@.target),
    {
        match &self.target {
            None => classify_entry(false, false, false),
            Some(Node::Symlink { .. }) => classify_entry(true, true, false),
            Some(Node::Directory { .. }) => classify_entry(true, false, true),
            Some(Node::File { .. }) => classify_entry(true, false, false),
        }
    }

    /// Creates the parent directory.
    pub fn create_parent(&mut self) -> (r: OpOutcome)
        ensures
            r == OpOutcome::Done,
            final(self)@ == (SiteView { parent_exists: true, target: old(self)@.target }),
    {
        self.parent_exists = true;
        OpOutcome::Done
    }

    /// Removes the target as `how` says.
    pub fn remove(&mut self, how: Removal) -> (r: OpOutcome)
        ensures
            (r, final(self)@.target) == removed(old(self)@.target, how),
            final(self).parent_exists == old(self).parent_exists,
    {
        match how {
            Removal::Keep => OpOutcome::Done,
            Removal::Unlink | Removal::RemoveFile => match &self.target {
                None => OpOutcome::NotFound,
                Some(Node::Directory { .. }) => OpOutcome::Failed,
                Some(_) => {
                    self.target = None;
                    OpOutcome::Done
                },
            },
            Removal::RemoveTree => match &self.target {
                None => OpOutcome::NotFound,
                Some(Node::File { .. }) => OpOutcome::Failed,
                Some(_) => {
                    self.target = None;
                    OpOutcome::Done
                },
            },
        }
    }

    /// Creates a symlink to `source` at the target.
    pub fn symlink_to(&mut self, source: &str) -> (r: OpOutcome)
        ensures
            (r, final(self)@) == symlinked(old(self)@, source@),
    {
        if !self.parent_exists {
            OpOutcome::NotFound
        } else if self.target.is_some() {
            OpOutcome::Failed
        } else {
            self.target = Some(Node::Symlink { dest: String::from_str(source) });
            OpOutcome::Done
        }
    }
}

/// Links `source` at the site: plans the steps from what the site holds,
/// then carries them out one by one as the step machine says, stopping at
/// the first step that fails.
pub fn link_in(site: &mut LinkSite, source: &str, source_exists: bool) -> (r: Result<
    (),
    DotmanError,
>)
    ensures
        (r, final(site)@) == link_effect(old(site)@, source@, source_exists),
{
    let ghost start = site@;
    let kind = site.kind();
    let plan = plan_link(source_exists, site.parent_exists, kind)?;
    let mut action = first_link_action(&plan);
    while !matches!(action, LinkAction::Finish)
        invariant
            source_exists,
            plan == (LinkPlan {
                create_parent: !start.parent_exists,
                removal: removal_of(kind_of(start.target)),
            }),
            action == LinkAction::CreateParent ==> site@ == start && !start.parent_exists,
            action matches LinkAction::Remove(how) ==> how == plan.removal && site@ == (SiteView {
                parent_exists: true,
                target: start.target,
            }),
            action == LinkAction::CreateSymlink ==> site@ == (SiteView {
                parent_exists: true,
                target: None,
            }),
            action == LinkAction::Finish ==> site@ == (SiteView {
                parent_exists: true,
                target: Some(NodeView::Symlink { dest: source@ }),
            }),
        decreases steps_left(action),
    {
        let o = match action {
            LinkAction::CreateParent => site.create_parent(),
            LinkAction::Remove(how) => site.remove(how),
            LinkAction::CreateSymlink => site.symlink_to(source),
            LinkAction::Finish => OpOutcome::Done,
        };
        action = next_link_action(&plan, action, o)?;
    }
    Ok(())
}

/// Linking twice with the same source succeeds both times and leaves the
/// site as the first link left it.
pub proof fn lemma_link_idempotent(v: SiteView, source: Seq<char>)
    ensures
        link_effect(v, source, true).0 is Ok,
        link_effect(link_effect(v, source, true).1, source, true).0 is Ok,
        link_effect(link_effect(v, source, true).1, source, true).1 == link_effect(
            v,
            source,
            true,
        ).1,
{
}

/// A regular file at the target is replaced by a symlink to the source.
pub proof fn lemma_link_replaces_file(v: SiteView, source: Seq<char>)
    requires
        kind_of(v.target) == EntryKind::File,
    ensures
        link_effect(v, source, true).0 is Ok,
        kind_of(link_effect(v, source, true).1.target) == EntryKind::Symlink,
        link_effect(v, source, true).1.target == Some(NodeView::Symlink { dest: source }),
{
}

/// A directory at the target, with all it holds, is replaced by a symlink to
/// the source.
pub proof fn lemma_link_replaces_directory(v: SiteView, source: Seq<char>)
    requires
        v.target matches Some(NodeView::Directory { entries }) && entries.len() > 0,
    ensures
        link_effect(v, source, true).0 is Ok,
        link_effect(v, source, true).1.target == Some(NodeView::Symlink { dest: source }),
{
}

/// A symlink at the target, whatever it points to, is replaced by a symlink
/// to the source.
pub proof fn lemma_link_replaces_symlink(v: SiteView, source: Seq<char>)
    requires
        kind_of(v.target) == EntryKind::Symlink,
    ensures
        link_effect(v, source, true).0 is Ok,
        link_effect(v, source, true).1.target == Some(NodeView::Symlink { dest: source }),
{
}

} // verus!
