use vstd::prelude::*;

use crate::bootstrap::{
    announces, rank, transition, Action, BootModel, BootstrapError, Event, Phase,
};
use crate::caps::{first_suitable, first_suitable_from, suitable, QueueFamily};
use crate::pipeline::Viewport;

verus! {

proof fn lemma_none_suitable_from(fams: Seq<QueueFamily>, i: nat)
    requires
        forall|j: int| 0 <= j < fams.len() ==> !suitable(#[trigger] fams[j]),
    ensures
        first_suitable_from(fams, i) is None,
    decreases fams.len() - i,
{
    if i < fams.len() {
        assert(!suitable(fams[i as int]));
        lemma_none_suitable_from(fams, i + 1);
    }
}

/// When no queue family of the device both supports graphics and can present
/// to the surface, the bootstrap fails with `NoSuitableQueueFamily`, asks for
/// nothing but to abort, and has created no logical device.
pub proof fn lemma_no_suitable_family(m: BootModel, fams: Vec<QueueFamily>)
    requires
        m.inv(),
        m.phase == Phase::SurfaceBound,
        forall|i: int| 0 <= i < fams@.len() ==> !suitable(#[trigger] fams@[i]),
    ensures
        ({
            let n = transition(m, Event::QueueFamilies(fams));
            &&& n.phase == Phase::Failed(BootstrapError::NoSuitableQueueFamily)
            &&& !n.device_created
            &&& forall|a: Action|
                announces(n, a) ==> a == Action::Abort(BootstrapError::NoSuitableQueueFamily)
        }),
{
    lemma_none_suitable_from(fams@, 0);
    assert(first_suitable(fams@) is None);
}

/// A ready bootstrap holds exactly one framebuffer per chain image, in chain
/// order: framebuffer `i` binds image `i`, at the chain's extent, one layer.
pub proof fn lemma_framebuffers_follow_chain(m: BootModel)
    requires
        m.inv(),
        m.phase == Phase::Ready,
    ensures
        m.framebuffers.len() == m.image_count,
        m.image_count >= m.chain.image_count,
        forall|i: int|
            0 <= i < m.framebuffers.len() ==> {
                &&& (#[trigger] m.framebuffers[i]).image == i
                &&& m.framebuffers[i].width == m.chain.extent.width
                &&& m.framebuffers[i].height == m.chain.extent.height
                &&& m.framebuffers[i].layers == 1
            },
{
}

/// Once the pipeline is built, its one viewport covers `(0, 0)` to the
/// chain's extent.
pub proof fn lemma_viewport_matches_chain(m: BootModel)
    requires
        m.inv(),
        rank(m.phase) >= rank(Phase::RenderPassReady),
    ensures
        m.pipeline.viewport == (Viewport {
            x: 0,
            y: 0,
            width: m.chain.extent.width,
            height: m.chain.extent.height,
        }),
{
}

/// Once the chain is agreed no event changes it, and a ready bootstrap
/// changes on no event: a new extent takes a new bootstrap.
pub proof fn lemma_chain_never_resized(m: BootModel, e: Event)
    requires
        rank(m.phase) >= rank(Phase::ChainNegotiated),
    ensures
        transition(m, e).chain == m.chain,
        m.phase == Phase::Ready ==> transition(m, e) == m,
{
}

/// The bootstrap is strictly linear: on any event it moves to the next phase
/// or fails, and a ready or failed bootstrap stays as it is.
pub proof fn lemma_linear_progress(m: BootModel, e: Event)
    ensures
        ({
            let n = transition(m, e);
            if m.phase is Ready || m.phase is Failed {
                n == m
            } else {
                rank(n.phase) == rank(m.phase) + 1 || n.phase is Failed
            }
        }),
{
}

} // verus!
