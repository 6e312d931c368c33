//! Native handles, the calls that release them, and the outcomes of a run of
//! creation calls.
use vstd::prelude::*;

verus! {

/// The kinds of native object that this library has destroyed.
#[derive(Clone, Copy, Debug, PartialEq, Eq, Structural)]
pub enum ObjectKind {
    Semaphore,
    CommandPool,
    Framebuffer,
    Pipeline,
    PipelineLayout,
    RenderPass,
    ShaderModule,
    ImageView,
    SwapChain,
    DebugMessenger,
    Surface,
    Device,
    Instance,
}

/// One destroy call: the kind of object and its handle.
#[derive(Clone, Copy, Debug, PartialEq, Eq, Structural)]
pub struct Release {
    pub kind: ObjectKind,
    pub handle: u64,
}

/// The outcome of one native creation call: a handle or a status code.
pub type Outcome = Result<u64, i32>;

pub open spec fn release_of(kind: ObjectKind, handle: u64) -> Release {
    Release { kind, handle }
}

/// Releases of `handles`, last created first.
pub open spec fn releases_rev(kind: ObjectKind, handles: Seq<u64>) -> Seq<Release> {
    Seq::new(handles.len(), |i: int| release_of(kind, handles[handles.len() - 1 - i]))
}

pub open spec fn handle_of(o: Outcome) -> u64 {
    match o {
        Ok(h) => h,
        Err(_) => 0,
    }
}

pub open spec fn code_of(o: Outcome) -> i32 {
    match o {
        Ok(_) => 0,
        Err(c) => c,
    }
}

/// The run of calls ended in a failure.
pub open spec fn failed(o: Seq<Outcome>) -> bool {
    o.len() > 0 && o.last() is Err
}

/// Every call but the last succeeded: the calls stop at the first failure.
pub open spec fn stops_at_failure(o: Seq<Outcome>) -> bool {
    forall|j: int| 0 <= j < o.len() - 1 ==> (#[trigger] o[j]) is Ok
}

/// A run of calls of `n` planned ones is settled when it stopped at its first
/// failure or made all `n`.
pub open spec fn settled(o: Seq<Outcome>, n: nat) -> bool {
    &&& o.len() <= n
    &&& stops_at_failure(o)
    &&& (o.len() == n || failed(o))
}

/// The handles that the run created.
pub open spec fn made(o: Seq<Outcome>) -> Seq<u64> {
    let m = if failed(o) {
        o.len() - 1
    } else {
        o.len() as int
    };
    Seq::new(m as nat, |i: int| handle_of(o[i]))
}

/// What a run of creation calls gave: the handles made, and the status code
/// of the call that failed, if one did.
#[derive(Debug)]
pub struct Batch {
    pub made: Vec<u64>,
    pub failure: Option<i32>,
}

/// Splits a run of outcomes into the handles made and the failure.
pub fn settle(o: &Vec<Outcome>) -> (r: Batch)
    requires
        stops_at_failure(o@),
    ensures
        r.made@ == made(o@),
        r.failure == (if failed(o@) {
            Some(code_of(o@.last()))
        } else {
            None::<i32>
        }),
{
    let mut made_handles: Vec<u64> = Vec::new();
    let mut i: usize = 0;
    while i < o.len()
        invariant
            0 <= i <= o@.len(),
            stops_at_failure(o@),
            made_handles@.len() == i,
            forall|j: int| 0 <= j < i ==> made_handles@[j] == handle_of(#[trigger] o@[j]),
            forall|j: int| 0 <= j < i ==> (#[trigger] o@[j]) is Ok,
        decreases o@.len() - i,
    {
        match o[i] {
            Ok(h) => {
                made_handles.push(h);
            },
            Err(c) => {
                assert(i == o@.len() - 1);
                assert(made_handles@ =~= made(o@));
                return Batch { made: made_handles, failure: Some(c) };
            },
        }
        i = i + 1;
    }
    assert(made_handles@ =~= made(o@));
    Batch { made: made_handles, failure: None }
}

/// Appends the releases of `handles`, last created first.
pub fn push_releases_rev(out: &mut Vec<Release>, kind: ObjectKind, handles: &Vec<u64>)
    ensures
        final(out)@ == old(out)@ + releases_rev(kind, handles@),
{
    let ghost start = out@;
    let mut i: usize = handles.len();
    while i > 0
        invariant
            0 <= i <= handles@.len(),
            out@ =~= start + Seq::new(
                (handles@.len() - i) as nat,
                |k: int| release_of(kind, handles@[handles@.len() - 1 - k]),
            ),
        decreases i,
    {
        i = i - 1;
        out.push(Release { kind, handle: handles[i] });
    }
    assert(out@ =~= old(out)@ + releases_rev(kind, handles@));
}

/// A copy of a list of handles.
pub fn copy_handles(v: &Vec<u64>) -> (r: Vec<u64>)
    ensures
        r@ == v@,
{
    let mut r: Vec<u64> = Vec::new();
    let mut i: usize = 0;
    while i < v.len()
        invariant
            0 <= i <= v@.len(),
            r@ == v@.subrange(0, i as int),
        decreases v@.len() - i,
    {
        r.push(v[i]);
        i = i + 1;
        assert(r@ =~= v@.subrange(0, i as int));
    }
    assert(v@.subrange(0, v@.len() as int) =~= v@);
    r
}

} // verus!
