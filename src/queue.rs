//! Queueing: one draw item per view and per entity whose mesh is resolved,
//! each with the pipeline of its specialization key.
use vstd::prelude::*;

use crate::pipeline::{specialized, PipelineCache, PrimitiveTopology, SpecializationKey};

verus! {

/// What a view contributes to the specialization key.
#[derive(Clone, Copy, Debug, PartialEq, Eq, Structural, Hash)]
pub struct ViewTarget {
    pub msaa_samples: u32,
    pub hdr: bool,
}

/// What a resolved mesh contributes to the specialization key.
#[derive(Clone, Copy, Debug, PartialEq, Eq, Structural, Hash)]
pub struct MeshTarget {
    pub topology: PrimitiveTopology,
    pub layout: u64,
}

/// A draw item: the view's index, the entity's index, and the pipeline.
#[derive(Debug, PartialEq, Eq)]
pub struct QueuedItem<P> {
    pub view: usize,
    pub entity: usize,
    pub pipeline: P,
}

pub open spec fn key_for(view: ViewTarget, mesh: MeshTarget) -> SpecializationKey {
    SpecializationKey {
        msaa_samples: view.msaa_samples,
        hdr: view.hdr,
        topology: mesh.topology,
        layout: mesh.layout,
    }
}

/// The specialization key of a view and a mesh.
pub fn specialization_key(view: ViewTarget, mesh: MeshTarget) -> (key: SpecializationKey)
    ensures
        key == key_for(view, mesh),
{
    SpecializationKey {
        msaa_samples: view.msaa_samples,
        hdr: view.hdr,
        topology: mesh.topology,
        layout: mesh.layout,
    }
}

/// The (view, entity) pairs of view `view` over the first `count` entities
/// whose mesh is resolved, in entity order.
pub open spec fn view_pairs(view: int, meshes: Seq<Option<MeshTarget>>, count: int) -> Seq<
    (int, int),
>
    decreases count,
{
    if count <= 0 {
        seq![]
    } else {
        let earlier = view_pairs(view, meshes, count - 1);
        if meshes[count - 1] is Some {
            earlier.push((view, count - 1))
        } else {
            earlier
        }
    }
}

/// The (view, entity) pairs of the first `views` views, view by view.
pub open spec fn queued_pairs(views: int, meshes: Seq<Option<MeshTarget>>) -> Seq<(int, int)>
    decreases views,
{
    if views <= 0 {
        seq![]
    } else {
        queued_pairs(views - 1, meshes) + view_pairs(views - 1, meshes, meshes.len() as int)
    }
}

pub open spec fn pairs_of<P>(items: Seq<QueuedItem<P>>) -> Seq<(int, int)> {
    items.map_values(|it: QueuedItem<P>| (it.view as int, it.entity as int))
}

/// Every item carries the pipeline that `cache` holds for its key.
pub open spec fn items_use_cache<P>(
    items: Seq<QueuedItem<P>>,
    views: Seq<ViewTarget>,
    meshes: Seq<Option<MeshTarget>>,
    cache: Map<SpecializationKey, P>,
) -> bool {
    forall|k: int|
        0 <= k < items.len() ==> {
            let it = #[trigger] items[k];
            &&& it.view < views.len()
            &&& it.entity < meshes.len()
            &&& meshes[it.entity as int] is Some
            &&& cache.contains_key(key_for(views[it.view as int], meshes[it.entity as int]->0))
            &&& cache[key_for(views[it.view as int], meshes[it.entity as int]->0)] == it.pipeline
        }
}

/// Every key of `before` keeps its pipeline in `after`.
pub open spec fn cache_grows<P>(before: Map<SpecializationKey, P>, after: Map<SpecializationKey, P>) -> bool {
    forall|k: SpecializationKey| #[trigger]
        before.contains_key(k) ==> after.contains_key(k) && after[k] == before[k]
}

/// Queues one item for each view and each entity whose mesh is resolved
/// (`meshes[e]` is `None` when it is not), view by view and in entity order.
/// Pipelines come from `cache`, which `build` fills for new keys; the first
/// build that fails ends the pass with its error.
pub fn queue_draw_items<P: Copy, E, F: Fn(SpecializationKey) -> Result<P, E>>(
    views: &Vec<ViewTarget>,
    meshes: &Vec<Option<MeshTarget>>,
    cache: &mut PipelineCache<P>,
    build: F,
) -> (r: Result<Vec<QueuedItem<P>>, E>)
    requires
        old(cache).wf(),
        forall|key: SpecializationKey| #[trigger] build.requires((key,)),
    ensures
        final(cache).wf(),
        cache_grows(old(cache).view(), final(cache).view()),
        r matches Ok(items) ==> {
            &&& pairs_of(items@) == queued_pairs(views.len() as int, meshes@)
            &&& items_use_cache(items@, views@, meshes@, final(cache).view())
        },
        (forall|key: SpecializationKey, out: Result<P, E>| #[trigger]
            build.ensures((key,), out) ==> out is Ok) ==> r is Ok,
{
    let mut items: Vec<QueuedItem<P>> = Vec::new();
    let mut v: usize = 0;
    while v < views.len()
        invariant
            v <= views.len(),
            cache.wf(),
            forall|key: SpecializationKey| #[trigger] build.requires((key,)),
            cache_grows(old(cache).view(), cache.view()),
            pairs_of(items@) == queued_pairs(v as int, meshes@),
            items_use_cache(items@, views@, meshes@, cache.view()),
        decreases views.len() - v,
    {
        let mut e: usize = 0;
        while e < meshes.len()
            invariant
                v < views.len(),
                e <= meshes.len(),
                cache.wf(),
                forall|key: SpecializationKey| #[trigger] build.requires((key,)),
                cache_grows(old(cache).view(), cache.view()),
                pairs_of(items@) == queued_pairs(v as int, meshes@) + view_pairs(
                    v as int,
                    meshes@,
                    e as int,
                ),
                items_use_cache(items@, views@, meshes@, cache.view()),
            decreases meshes.len() - e,
        {
            if let Some(mesh) = meshes[e] {
                let key = specialization_key(views[v], mesh);
                let ghost before = cache.view();
                let built = cache.specialize(
                    key,
                    (|k: SpecializationKey| -> (out: Result<P, E>)
                        requires
                            build.requires((k,)),
                        ensures
                            build.ensures((k,), out),
                        { build(k) }),
                );
                match built {
                    Ok(pipeline) => {
                        let ghost old_items = items@;
                        items.push(QueuedItem { view: v, entity: e, pipeline });
                        proof {
                            assert(cache_grows(before, cache.view()));
                            assert(pairs_of(items@) =~= pairs_of(old_items).push(
                                (v as int, e as int),
                            ));
                            assert(queued_pairs(v as int, meshes@) + view_pairs(
                                v as int,
                                meshes@,
                                e + 1,
                            ) =~= (queued_pairs(v as int, meshes@) + view_pairs(
                                v as int,
                                meshes@,
                                e as int,
                            )).push((v as int, e as int)));
                        }
                    },
                    Err(err) => {
                        assert(!before.contains_key(key));
                        assert(build.ensures((key,), Err::<P, E>(err)));
                        return Err(err);
                    },
                }
            } else {
                assert(view_pairs(v as int, meshes@, e + 1) == view_pairs(v as int, meshes@, e as int));
            }
            e = e + 1;
        }
        v = v + 1;
    }
    Ok(items)
}

} // verus!
