//! Queue family resolution: the graphics and presentation families of an accelerator.
use vstd::prelude::*;

verus! {

/// `VK_QUEUE_GRAPHICS_BIT`.
pub const QUEUE_GRAPHICS_BIT: u32 = 1;

/// What the surface-support query answered for one queue family.
#[derive(Clone, Copy, Debug, PartialEq, Eq, Structural)]
pub enum PresentSupport {
    Supported,
    Unsupported,
    /// The query itself failed; scanning stops here.
    QueryFailed,
    /// The scan had stopped before this family was reached.
    NotQueried,
}

/// One queue family: its capability flags and whether it can present.
#[derive(Clone, Copy, Debug, PartialEq, Eq, Structural)]
pub struct QueueFamilyInfo {
    pub flags: u32,
    pub present: PresentSupport,
}

pub open spec fn has_flags(family: QueueFamilyInfo, flags: u32) -> bool {
    family.flags & flags == flags
}

/// `i` is the first family whose flags contain `flags`.
pub open spec fn is_first_with_flags(families: Seq<QueueFamilyInfo>, flags: u32, i: int) -> bool {
    &&& 0 <= i < families.len()
    &&& has_flags(families[i], flags)
    &&& forall|j: int| 0 <= j < i ==> !has_flags(#[trigger] families[j], flags)
}

/// `i` is where the present scan succeeds: it supports presentation and every
/// family before it answered that it does not (no failed query on the way).
pub open spec fn is_first_present(families: Seq<QueueFamilyInfo>, i: int) -> bool {
    &&& 0 <= i < families.len()
    &&& families[i].present == PresentSupport::Supported
    &&& forall|j: int| 0 <= j < i ==> (#[trigger] families[j]).present == PresentSupport::Unsupported
}

pub open spec fn has_graphics_family(families: Seq<QueueFamilyInfo>) -> bool {
    exists|i: int| is_first_with_flags(families, QUEUE_GRAPHICS_BIT, i)
}

pub open spec fn has_present_family(families: Seq<QueueFamilyInfo>) -> bool {
    exists|i: int| is_first_present(families, i)
}

/// The index of the first family whose flags contain `flags`.
pub fn find_queue_index(families: &Vec<QueueFamilyInfo>, flags: u32) -> (r: Option<u32>)
    requires
        families@.len() <= u32::MAX,
    ensures
        match r {
            Some(i) => is_first_with_flags(families@, flags, i as int),
            None => forall|j: int| 0 <= j < families@.len() ==> !has_flags(#[trigger] families@[j], flags),
        },
{
    let mut i: usize = 0;
    while i < families.len()
        invariant
            0 <= i <= families@.len() <= u32::MAX,
            forall|j: int| 0 <= j < i ==> !has_flags(#[trigger] families@[j], flags),
        decreases families@.len() - i,
    {
        if families[i].flags & flags == flags {
            return Some(i as u32);
        }
        i = i + 1;
    }
    None
}

/// The index of the first family that can present, scanning in order and
/// giving up at the first failed query.
pub fn find_present_queue_index(families: &Vec<QueueFamilyInfo>) -> (r: Option<u32>)
    requires
        families@.len() <= u32::MAX,
    ensures
        match r {
            Some(i) => is_first_present(families@, i as int),
            None => !has_present_family(families@),
        },
{
    let mut i: usize = 0;
    while i < families.len()
        invariant
            0 <= i <= families@.len() <= u32::MAX,
            forall|j: int| 0 <= j < i ==> (#[trigger] families@[j]).present == PresentSupport::Unsupported,
        decreases families@.len() - i,
    {
        match families[i].present {
            PresentSupport::Supported => {
                return Some(i as u32);
            },
            PresentSupport::Unsupported => {},
            PresentSupport::QueryFailed | PresentSupport::NotQueried => {
                assert forall|k: int| !is_first_present(families@, k) by {
                    if is_first_present(families@, k) {
                        if k > i {
                            assert(families@[i as int].present == PresentSupport::Unsupported);
                        }
                    }
                }
                return None;
            },
        }
        i = i + 1;
    }
    None
}

/// The next step of the present-support scan.
#[derive(Clone, Copy, Debug, PartialEq, Eq, Structural)]
pub enum PresentQuery {
    /// Query the family with this index next.
    Ask(u32),
    /// The scan is over: this family can present.
    Found(u32),
    /// The scan is over without a family that can present.
    NotFound,
}

/// The answers so far are those of a scan that has not stopped yet: every
/// answer but the last said that the family cannot present.
pub open spec fn scan_in_progress(answers: Seq<PresentSupport>) -> bool {
    forall|j: int| 0 <= j < answers.len() - 1 ==> (#[trigger] answers[j]) == PresentSupport::Unsupported
}

/// Asks family by family; stops at the first family that can present, at the
/// first failed query, or once all `n` families have answered no.
pub open spec fn present_scan(answers: Seq<PresentSupport>, n: nat) -> PresentQuery {
    if answers.len() > 0 && answers.last() == PresentSupport::Supported {
        PresentQuery::Found((answers.len() - 1) as u32)
    } else if answers.len() > 0 && answers.last() != PresentSupport::Unsupported {
        PresentQuery::NotFound
    } else if answers.len() < n {
        PresentQuery::Ask(answers.len() as u32)
    } else {
        PresentQuery::NotFound
    }
}

/// Given the answers of the families asked so far, in index order, and the
/// number `n` of families, says which family to query next or how the scan ended.
pub fn next_present_query(answers: &Vec<PresentSupport>, n: u32) -> (r: PresentQuery)
    requires
        answers@.len() <= n,
        scan_in_progress(answers@),
    ensures
        r == present_scan(answers@, n as nat),
{
    let len = answers.len();
    if len > 0 {
        match answers[len - 1] {
            PresentSupport::Supported => {
                return PresentQuery::Found((len - 1) as u32);
            },
            PresentSupport::Unsupported => {},
            _ => {
                return PresentQuery::NotFound;
            },
        }
    }
    if len < n as usize {
        PresentQuery::Ask(len as u32)
    } else {
        PresentQuery::NotFound
    }
}

/// A finished scan agrees with the family list built from its answers, where
/// families it never reached are marked as not queried: it finds exactly the
/// first family that can present, and finds none exactly when there is none.
pub proof fn lemma_scan_agrees_with_first_present(
    families: Seq<QueueFamilyInfo>,
    answers: Seq<PresentSupport>,
)
    requires
        answers.len() <= families.len() <= u32::MAX,
        scan_in_progress(answers),
        !(present_scan(answers, families.len()) is Ask),
        forall|j: int| 0 <= j < answers.len() ==> (#[trigger] families[j]).present == answers[j],
        forall|j: int|
            answers.len() <= j < families.len() ==> (#[trigger] families[j]).present
                == PresentSupport::NotQueried,
    ensures
        present_scan(answers, families.len()) matches PresentQuery::Found(i) ==> is_first_present(
            families,
            i as int,
        ),
        present_scan(answers, families.len()) is NotFound <==> !has_present_family(families),
{
    let len = answers.len() as int;
    if len > 0 && answers.last() == PresentSupport::Supported {
        assert(families[len - 1].present == answers[len - 1]);
        assert forall|j: int| 0 <= j < len - 1 implies (#[trigger] families[j]).present
            == PresentSupport::Unsupported by {
            assert(families[j].present == answers[j]);
        }
        assert(is_first_present(families, len - 1));
    } else {
        assert forall|k: int| !is_first_present(families, k) by {
            if is_first_present(families, k) {
                if k < len {
                    assert(families[k].present == answers[k]);
                    if k < len - 1 {
                        assert(answers[k] == PresentSupport::Unsupported);
                    }
                } else if len < families.len() {
                    assert(families[len].present == PresentSupport::NotQueried);
                    if len > 0 {
                        assert(families[len - 1].present == answers[len - 1]);
                    }
                } else if len > 0 {
                    assert(families[len - 1].present == answers[len - 1]);
                }
            }
        }
    }
}

/// The resolved graphics and presentation queue families of an accelerator.
#[derive(Clone, Copy, Debug, PartialEq, Eq, Structural)]
pub struct QueueFamilyIndices {
    pub graphics: u32,
    pub present: u32,
}

pub open spec fn unique_indices(q: QueueFamilyIndices) -> Seq<u32> {
    if q.graphics == q.present {
        seq![q.graphics]
    } else {
        seq![q.graphics, q.present]
    }
}

pub open spec fn resolved_indices(families: Seq<QueueFamilyInfo>, q: QueueFamilyIndices) -> bool {
    is_first_with_flags(families, QUEUE_GRAPHICS_BIT, q.graphics as int) && is_first_present(
        families,
        q.present as int,
    )
}

impl QueueFamilyIndices {
    /// Resolves both families, or returns `None` where either is missing.
    pub fn create(families: &Vec<QueueFamilyInfo>) -> (r: Option<QueueFamilyIndices>)
        requires
            families@.len() <= u32::MAX,
        ensures
            r is Some <==> has_graphics_family(families@) && has_present_family(families@),
            r matches Some(q) ==> resolved_indices(families@, q),
    {
        let graphics = find_queue_index(families, QUEUE_GRAPHICS_BIT);
        let present = find_present_queue_index(families);
        match (graphics, present) {
            (Some(g), Some(p)) => Some(QueueFamilyIndices { graphics: g, present: p }),
            _ => {
                proof {
                    if graphics is None && has_graphics_family(families@) {
                        let k = choose|k: int| is_first_with_flags(families@, QUEUE_GRAPHICS_BIT, k);
                        assert(!has_flags(families@[k], QUEUE_GRAPHICS_BIT));
                    }
                }
                None
            },
        }
    }

    /// The distinct family indices to request queues from, graphics first;
    /// one entry when both families coincide.
    pub fn get_unique_indices(&self) -> (r: Vec<u32>)
        ensures
            r@ == unique_indices(*self),
    {
        if self.graphics == self.present {
            vec![self.graphics]
        } else {
            vec![self.graphics, self.present]
        }
    }
}

} // verus!
