//! Queue family selection.
//!
//! A physical device exposes a list of queue families, each supporting some
//! capabilities. The renderer needs one graphics-capable family and one
//! transfer-capable family, and prefers two distinct families so that
//! transfers and drawing do not contend for one queue. Only when a single
//! combined family is all the device offers do both roles share it; callers
//! treat that as a degraded-performance path and log a warning.

use vstd::prelude::*;

use crate::error::RendererError;

verus! {

/// What one queue family of a physical device can do.
#[derive(Debug, Clone, Copy, PartialEq, Eq, Structural)]
pub struct QueueFamilyProps {
    pub graphics: bool,
    pub transfer: bool,
}

/// The queue families chosen for the logical device.
#[derive(Debug, Clone, Copy, PartialEq, Eq, Structural)]
pub struct QueueSelection {
    pub graphics_family: usize,
    pub transfer_family: usize,
    /// Both roles fell back to the same family: the degraded path.
    pub shared_family: bool,
}

pub open spec fn caps_both(f: QueueFamilyProps) -> bool {
    f.graphics && f.transfer
}

pub open spec fn caps_graphics_only(f: QueueFamilyProps) -> bool {
    f.graphics && !f.transfer
}

pub open spec fn caps_transfer_only(f: QueueFamilyProps) -> bool {
    f.transfer && !f.graphics
}

pub open spec fn has_graphics(s: Seq<QueueFamilyProps>) -> bool {
    exists|i: int| 0 <= i < s.len() && s[i].graphics
}

pub open spec fn has_transfer(s: Seq<QueueFamilyProps>) -> bool {
    exists|i: int| 0 <= i < s.len() && s[i].transfer
}

/// `k` is the first index whose family supports both capabilities.
pub open spec fn first_both(s: Seq<QueueFamilyProps>, k: int) -> bool {
    &&& 0 <= k < s.len()
    &&& caps_both(s[k])
    &&& forall|j: int| 0 <= j < k ==> !caps_both(s[j])
}

/// `k` is the first index whose family is graphics-capable but not
/// transfer-capable.
pub open spec fn first_graphics_only(s: Seq<QueueFamilyProps>, k: int) -> bool {
    &&& 0 <= k < s.len()
    &&& caps_graphics_only(s[k])
    &&& forall|j: int| 0 <= j < k ==> !caps_graphics_only(s[j])
}

/// `k` is the first index whose family is transfer-capable but not
/// graphics-capable.
pub open spec fn first_transfer_only(s: Seq<QueueFamilyProps>, k: int) -> bool {
    &&& 0 <= k < s.len()
    &&& caps_transfer_only(s[k])
    &&& forall|j: int| 0 <= j < k ==> !caps_transfer_only(s[j])
}

/// `k2` is the next index after `k1` whose family supports both
/// capabilities, where `k1` is the first such index.
pub open spec fn second_both(s: Seq<QueueFamilyProps>, k1: int, k2: int) -> bool {
    &&& first_both(s, k1)
    &&& k1 < k2 < s.len()
    &&& caps_both(s[k2])
    &&& forall|j: int| k1 < j < k2 ==> !caps_both(s[j])
}

/// The selected families exist and support their roles, and the shared
/// flag says whether both roles landed on one family.
pub open spec fn selection_valid(s: Seq<QueueFamilyProps>, sel: QueueSelection) -> bool {
    &&& sel.graphics_family < s.len()
    &&& s[sel.graphics_family as int].graphics
    &&& sel.transfer_family < s.len()
    &&& s[sel.transfer_family as int].transfer
    &&& (sel.shared_family <==> sel.graphics_family == sel.transfer_family)
}

/// Exactly which families the selection picks: a dedicated family is
/// preferred for each role, the first combined family fills a role with no
/// dedicated family, and only a device whose sole capable family is a
/// single combined one makes the roles share.
pub open spec fn selection_expected(s: Seq<QueueFamilyProps>, sel: QueueSelection) -> bool {
    let g = sel.graphics_family as int;
    let t = sel.transfer_family as int;
    &&& if exists|k: int| first_graphics_only(s, k) {
        first_graphics_only(s, g)
    } else {
        first_both(s, g)
    }
    &&& if exists|k: int| first_transfer_only(s, k) {
        first_transfer_only(s, t)
    } else if exists|k: int| first_graphics_only(s, k) {
        first_both(s, t)
    } else if exists|k1: int, k2: int| second_both(s, k1, k2) {
        second_both(s, g, t)
    } else {
        t == g
    }
}

/// Some pair of distinct families could cover graphics and transfer.
pub open spec fn disjoint_pair_available(s: Seq<QueueFamilyProps>) -> bool {
    exists|i: int, j: int|
        0 <= i < s.len() && 0 <= j < s.len() && i != j && s[i].graphics && s[j].transfer
}

/// Partitions the queue families by capability and picks one
/// graphics-capable and one transfer-capable family, preferring distinct
/// families; both roles share a family only when the device offers exactly
/// one capable family, which supports both.
pub fn select_queue_families(families: &Vec<QueueFamilyProps>) -> (r: Result<
    QueueSelection,
    RendererError,
>)
    ensures
        r is Ok <==> has_graphics(families@) && has_transfer(families@),
        r matches Ok(sel) ==> selection_valid(families@, sel) && selection_expected(
            families@,
            sel,
        ),
        r matches Ok(sel) ==> disjoint_pair_available(families@) ==> sel.graphics_family
            != sel.transfer_family,
        r matches Ok(sel) ==> sel.shared_family ==> caps_both(
            families@[sel.graphics_family as int],
        ) && forall|j: int|
            0 <= j < families@.len() && j != sel.graphics_family ==> !families@[j].graphics
                && !families@[j].transfer,
        r matches Err(e) ==> (e == RendererError::NoGraphicsQueues <==> !has_graphics(families@)),
        r matches Err(e) ==> (e == RendererError::NoTransferQueues <==> has_graphics(families@)
            && !has_transfer(families@)),
{
    let n = families.len();
    let mut both0: Option<usize> = None;
    let mut both1: Option<usize> = None;
    let mut gonly0: Option<usize> = None;
    let mut tonly0: Option<usize> = None;
    let mut i: usize = 0;
    while i < n
        invariant
            n == families@.len(),
            i <= n,
            both0 is None ==> forall|j: int| 0 <= j < i ==> !caps_both(families@[j]),
            both0 matches Some(k) ==> k < i && first_both(families@, k as int),
            both1 is Some ==> both0 is Some,
            both0 matches Some(k) ==> both1 is None ==> forall|j: int|
                k < j < i ==> !caps_both(families@[j]),
            both1 matches Some(k2) ==> k2 < i && (both0 matches Some(k1) && second_both(
                families@,
                k1 as int,
                k2 as int,
            )),
            gonly0 is None ==> forall|j: int| 0 <= j < i ==> !caps_graphics_only(families@[j]),
            gonly0 matches Some(k) ==> k < i && first_graphics_only(families@, k as int),
            tonly0 is None ==> forall|j: int| 0 <= j < i ==> !caps_transfer_only(families@[j]),
            tonly0 matches Some(k) ==> k < i && first_transfer_only(families@, k as int),
        decreases n - i,
    {
        let f = families[i];
        if f.graphics && f.transfer {
            if both0.is_none() {
                both0 = Some(i);
            } else if both1.is_none() {
                both1 = Some(i);
            }
        } else if f.graphics {
            if gonly0.is_none() {
                gonly0 = Some(i);
            }
        } else if f.transfer {
            if tonly0.is_none() {
                tonly0 = Some(i);
            }
        }
        i += 1;
    }
    match (gonly0, tonly0) {
        (Some(g), Some(t)) => Ok(
            QueueSelection { graphics_family: g, transfer_family: t, shared_family: false },
        ),
        (Some(g), None) => match both0 {
            Some(b) => Ok(
                QueueSelection { graphics_family: g, transfer_family: b, shared_family: false },
            ),
            None => Err(RendererError::NoTransferQueues),
        },
        (None, Some(t)) => match both0 {
            Some(b) => Ok(
                QueueSelection { graphics_family: b, transfer_family: t, shared_family: false },
            ),
            None => Err(RendererError::NoGraphicsQueues),
        },
        (None, None) => match (both0, both1) {
            (Some(b), Some(b2)) => Ok(
                QueueSelection { graphics_family: b, transfer_family: b2, shared_family: false },
            ),
            (Some(b), None) => Ok(
                QueueSelection { graphics_family: b, transfer_family: b, shared_family: true },
            ),
            (None, _) => Err(RendererError::NoGraphicsQueues),
        },
    }
}

/// One queue-creation request for the logical device: how many queues to
/// ask of one family.
#[derive(Debug, Clone, Copy, PartialEq, Eq, Structural)]
pub struct QueueCreatePlan {
    pub family_index: usize,
    pub queue_count: usize,
}

/// Turns a selection into the device's queue-creation requests: two
/// queues of the one family when both roles share it, else one queue of
/// each family.
pub fn plan_queue_creation(sel: &QueueSelection) -> (v: Vec<QueueCreatePlan>)
    ensures
        sel.graphics_family == sel.transfer_family ==> v@.len() == 1 && v@[0]
            == (QueueCreatePlan { family_index: sel.graphics_family, queue_count: 2 }),
        sel.graphics_family != sel.transfer_family ==> v@.len() == 2 && v@[0]
            == (QueueCreatePlan { family_index: sel.graphics_family, queue_count: 1 }) && v@[1]
            == (QueueCreatePlan { family_index: sel.transfer_family, queue_count: 1 }),
{
    let mut v: Vec<QueueCreatePlan> = Vec::new();
    if sel.graphics_family == sel.transfer_family {
        v.push(QueueCreatePlan { family_index: sel.graphics_family, queue_count: 2 });
    } else {
        v.push(QueueCreatePlan { family_index: sel.graphics_family, queue_count: 1 });
        v.push(QueueCreatePlan { family_index: sel.transfer_family, queue_count: 1 });
    }
    v
}

} // verus!
