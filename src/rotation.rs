use crate::naming::{is_archive, is_archive_path};
use vstd::prelude::*;

verus! {

/// What stands at the current-log path when a rotation begins, looked at
/// without following a symlink.
#[derive(Clone, Debug)]
pub enum LinkState {
    /// Nothing is there.
    Missing,
    /// Something is there that is not a symlink.
    NotLink,
    /// A symlink whose target could not be resolved to an existing file.
    Dangling,
    /// A symlink that resolves to this existing file.
    Target(String),
}

/// What a rotation does besides opening the new dated file.
#[derive(Clone, Debug)]
pub struct RotationPlan {
    /// Point the current-log symlink at the new file.
    pub relink: bool,
    /// Remove what stands at the current-log path before linking.
    pub remove_existing: bool,
    /// The superseded file to hand to the compressor.
    pub hand_off: Option<String>,
}

pub open spec fn links_to(link: LinkState, path: Seq<char>) -> bool {
    match link {
        LinkState::Target(t) => t@ == path,
        _ => false,
    }
}

/// A rotation must repoint the link unless it already names the new file.
pub open spec fn needs_relink(link: LinkState, new_path: Seq<char>) -> bool {
    !links_to(link, new_path)
}

/// The file that a rotation supersedes and hands on for compression, if any:
/// the resolved old target, when the link moves, compression is on, and the
/// target is not compressed already.
pub open spec fn superseded(link: LinkState, new_path: Seq<char>, compress: bool) -> Option<Seq<char>> {
    match link {
        LinkState::Target(t) => if compress && t@ != new_path && !is_archive(t@) {
            Some(t@)
        } else {
            None
        },
        _ => None,
    }
}

pub open spec fn hand_off_view(h: Option<String>) -> Option<Seq<char>> {
    match h {
        Some(p) => Some(p@),
        None => None,
    }
}

impl RotationPlan {
    /// The plan that a rotation to `new_path` follows, given the link it found.
    pub open spec fn fits(&self, link: LinkState, new_path: Seq<char>, compress: bool) -> bool {
        &&& self.relink == needs_relink(link, new_path)
        &&& self.remove_existing == (self.relink && !(link is Missing))
        &&& hand_off_view(self.hand_off) == superseded(link, new_path, compress)
    }
}

/// The target of the current-log symlink once a rotation to `new_path` has
/// carried out `plan` (`None`: no symlink resolves there).
pub open spec fn link_after(link: LinkState, plan: RotationPlan, new_path: Seq<char>) -> Option<Seq<char>> {
    if plan.relink {
        Some(new_path)
    } else {
        match link {
            LinkState::Target(t) => Some(t@),
            _ => None,
        }
    }
}

/// One filesystem step of a rotation.
#[derive(Clone, Copy, Debug, PartialEq, Eq, Structural)]
pub enum RotationAction {
    /// Start compressing the superseded file in the background, by path.
    HandOff,
    /// Open the new dated file, creating it if absent, for appending.
    OpenNew,
    /// Remove what stands at the current-log path; its absence is no error.
    RemoveLink,
    /// Create the current-log symlink, pointing at the new file.
    CreateLink,
}

/// The order of a rotation's steps: the new file is opened before the link
/// is made to name it, and the superseded file goes to the compressor only
/// once the link has moved off it, so the compressor never removes a file
/// that the link names.
pub open spec fn order_for(plan: RotationPlan) -> Seq<RotationAction> {
    let remove = if plan.remove_existing { seq![RotationAction::RemoveLink] } else { Seq::empty() };
    let link = if plan.relink { seq![RotationAction::CreateLink] } else { Seq::empty() };
    let hand = if plan.hand_off is Some { seq![RotationAction::HandOff] } else { Seq::empty() };
    seq![RotationAction::OpenNew] + remove + link + hand
}

/// The log folder as far as the current-log link is concerned: the files
/// that exist, and the file that the link resolves to (`None`: no link
/// resolves there).
pub ghost struct FolderView {
    pub files: Set<Seq<char>>,
    pub link: Option<Seq<char>>,
}

/// The link is absent or resolves to an existing file.
pub open spec fn link_sound(f: FolderView) -> bool {
    f.link matches Some(t) ==> f.files.contains(t)
}

/// `f` is a folder in which the current-log path was found as `link`.
pub open spec fn shows(f: FolderView, link: LinkState) -> bool {
    match link {
        LinkState::Target(t) => f.link == Some(t@) && f.files.contains(t@),
        _ => f.link is None,
    }
}

/// The folder after one step of a rotation to `new_path`. A hand-off is
/// taken at its worst: the compressor removes the file at once.
pub open spec fn take_step(f: FolderView, a: RotationAction, plan: RotationPlan, new_path: Seq<char>) -> FolderView {
    match a {
        RotationAction::OpenNew => FolderView { files: f.files.insert(new_path), ..f },
        RotationAction::RemoveLink => FolderView { link: None, ..f },
        RotationAction::CreateLink => FolderView { link: Some(new_path), ..f },
        RotationAction::HandOff => match plan.hand_off {
            Some(p) => FolderView { files: f.files.remove(p@), ..f },
            None => f,
        },
    }
}

/// The folder after `steps`, taken in order.
pub open spec fn take_steps(f: FolderView, steps: Seq<RotationAction>, plan: RotationPlan, new_path: Seq<char>) -> FolderView
    decreases steps.len(),
{
    if steps.len() == 0 {
        f
    } else {
        take_step(take_steps(f, steps.drop_last(), plan, new_path), steps.last(), plan, new_path)
    }
}

/// The steps that carry out `plan`, in the order they are to be taken.
pub fn rotation_order(plan: &RotationPlan) -> (r: Vec<RotationAction>)
    ensures
        r@ == order_for(*plan),
{
    let mut r: Vec<RotationAction> = Vec::new();
    r.push(RotationAction::OpenNew);
    if plan.remove_existing {
        r.push(RotationAction::RemoveLink);
    }
    if plan.relink {
        r.push(RotationAction::CreateLink);
    }
    if plan.hand_off.is_some() {
        r.push(RotationAction::HandOff);
    }
    proof {
        let remove = if plan.remove_existing { seq![RotationAction::RemoveLink] } else { Seq::<RotationAction>::empty() };
        let link = if plan.relink { seq![RotationAction::CreateLink] } else { Seq::<RotationAction>::empty() };
        let hand = if plan.hand_off is Some { seq![RotationAction::HandOff] } else { Seq::<RotationAction>::empty() };
        assert(r@ =~= seq![RotationAction::OpenNew] + remove + link + hand);
    }
    r
}

/// Decides what a rotation to `new_path` does, given what stands at the
/// current-log path.
pub fn plan_rotation(link: &LinkState, new_path: &String, compress: bool) -> (r: RotationPlan)
    ensures
        r.fits(*link, new_path@, compress),
{
    match link {
        LinkState::Missing => RotationPlan { relink: true, remove_existing: false, hand_off: None },
        LinkState::NotLink | LinkState::Dangling => {
            RotationPlan { relink: true, remove_existing: true, hand_off: None }
        },
        LinkState::Target(t) => {
            let same = *t == *new_path;
            let hand_off = if !same && compress && !is_archive_path(t.as_str()) {
                Some(t.clone())
            } else {
                None
            };
            RotationPlan { relink: !same, remove_existing: !same, hand_off }
        },
    }
}

/// After any rotation the current-log symlink resolves to the file that the
/// rotation opened, and that file is never the one handed to the compressor.
pub proof fn lemma_link_names_newest(link: LinkState, new_path: Seq<char>, compress: bool, plan: RotationPlan)
    requires
        plan.fits(link, new_path, compress),
    ensures
        link_after(link, plan, new_path) == Some(new_path),
        hand_off_view(plan.hand_off) != Some(new_path),
{
}

/// The folder after the first `k` of `steps` is one step on from that after
/// the first `k - 1`.
proof fn lemma_prefix_step(f: FolderView, steps: Seq<RotationAction>, plan: RotationPlan, new_path: Seq<char>, k: int)
    requires
        1 <= k <= steps.len(),
    ensures
        take_steps(f, steps.take(k), plan, new_path) == take_step(
            take_steps(f, steps.take(k - 1), plan, new_path),
            steps[k - 1],
            plan,
            new_path,
        ),
{
    assert(steps.take(k).drop_last() =~= steps.take(k - 1));
}

/// Taking a rotation's steps in order keeps the current-log link sound at
/// every point: before and after each step it is absent or resolves to an
/// existing file, even where the compressor removes the superseded file at
/// once. At the end it resolves to the file that the rotation opened.
pub proof fn lemma_steps_keep_link_sound(
    f: FolderView,
    link: LinkState,
    new_path: Seq<char>,
    compress: bool,
    plan: RotationPlan,
)
    requires
        plan.fits(link, new_path, compress),
        shows(f, link),
    ensures
        forall|k: int|
            0 <= k <= order_for(plan).len() ==> link_sound(
                #[trigger] take_steps(f, order_for(plan).take(k), plan, new_path),
            ),
        take_steps(f, order_for(plan), plan, new_path).link == Some(new_path),
        take_steps(f, order_for(plan), plan, new_path).files.contains(new_path),
{
    let order = order_for(plan);
    let o = RotationAction::OpenNew;
    let r = RotationAction::RemoveLink;
    let c = RotationAction::CreateLink;
    let h = RotationAction::HandOff;
    let full = seq![o, r, c, h];
    let n = order.len() as int;
    if !plan.relink {
        assert(order =~= seq![o]);
    } else if !plan.remove_existing {
        assert(order =~= seq![o, c]);
    } else if plan.hand_off is None {
        assert(order =~= seq![o, r, c]);
    } else {
        assert(order =~= full);
    }
    assert(order.take(0) =~= Seq::<RotationAction>::empty());
    assert(take_steps(f, order.take(0), plan, new_path) == f);
    lemma_prefix_step(f, order, plan, new_path, 1);
    if n >= 2 {
        lemma_prefix_step(f, order, plan, new_path, 2);
    }
    if n >= 3 {
        lemma_prefix_step(f, order, plan, new_path, 3);
    }
    if n >= 4 {
        lemma_prefix_step(f, order, plan, new_path, 4);
    }
    assert forall|k: int| 0 <= k <= n implies link_sound(
        #[trigger] take_steps(f, order.take(k), plan, new_path),
    ) by {}
    assert(order.take(n) =~= order);
}

/// A second rotation that computes the name the link already points at
/// neither removes nor recreates the link, and compresses nothing.
pub proof fn lemma_same_name_keeps_link(link: LinkState, new_path: Seq<char>, compress: bool, plan: RotationPlan)
    requires
        plan.fits(link, new_path, compress),
        links_to(link, new_path),
    ensures
        !plan.relink,
        !plan.remove_existing,
        plan.hand_off is None,
{
}

} // verus!
