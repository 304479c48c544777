//! The per-entity instance buffer: replaced by a fresh back-to-front upload
//! each prepared frame, removed when the collection is empty, left alone when
//! there is no camera.
use vstd::prelude::*;

use crate::order::{is_back_to_front, permuted, sort_back_to_front};

verus! {

/// A GPU buffer of sorted instances and the number of instances it holds.
#[derive(Debug, PartialEq, Eq)]
pub struct InstanceBuffer<B> {
    pub buffer: B,
    pub length: usize,
}

/// `buffer` is what `upload` returned for the back-to-front copy of
/// `instances` under `keys`, and it holds as many instances.
pub open spec fn is_sorted_upload<T, B, F: Fn(Vec<T>) -> B>(
    buffer: InstanceBuffer<B>,
    instances: Seq<T>,
    keys: Seq<u32>,
    upload: F,
) -> bool {
    &&& buffer.length == instances.len()
    &&& exists|sorted: Vec<T>|
        #[trigger] upload.ensures((sorted,), buffer.buffer) && exists|order: Seq<usize>|
            is_back_to_front(keys, order) && sorted@ == permuted(instances, order)
}

/// The slot of one entity after a preparation pass. With no camera
/// (`distance_keys` is `None`) the slot is kept; an empty collection leaves no
/// buffer; otherwise the slot holds a fresh upload of the sorted instances.
pub open spec fn prepared_slot<T, B, F: Fn(Vec<T>) -> B>(
    before: Option<InstanceBuffer<B>>,
    after: Option<InstanceBuffer<B>>,
    instances: Seq<T>,
    distance_keys: Option<Vec<u32>>,
    upload: F,
) -> bool {
    match distance_keys {
        None => after == before,
        Some(keys) => if instances.len() == 0 {
            after is None
        } else {
            after matches Some(b) && is_sorted_upload(b, instances, keys@, upload)
        },
    }
}

/// Prepares the instance buffer of one entity. `distance_keys` holds the
/// distance key of each instance to the active camera, or `None` when no
/// camera exists this frame; `upload` turns sorted instances into a buffer.
pub fn prepare_instance_buffer<T: Copy, B, F: Fn(Vec<T>) -> B>(
    slot: &mut Option<InstanceBuffer<B>>,
    instances: &Vec<T>,
    distance_keys: &Option<Vec<u32>>,
    upload: F,
)
    requires
        distance_keys matches Some(keys) ==> keys.len() == instances.len(),
        forall|v: Vec<T>| #[trigger] upload.requires((v,)),
    ensures
        prepared_slot(*old(slot), *final(slot), instances@, *distance_keys, upload),
{
    match distance_keys {
        None => {},
        Some(keys) => {
            if instances.len() == 0 {
                *slot = None;
            } else {
                let sorted = sort_back_to_front(instances, keys);
                let ghost sorted_copy = sorted;
                let ghost order = choose|o: Seq<usize>|
                    is_back_to_front(keys@, o) && sorted@ == permuted(instances@, o);
                assert(sorted@.len() == instances.len());
                let length = sorted.len();
                let buffer = upload(sorted);
                assert(upload.ensures((sorted_copy,), buffer));
                let prepared = InstanceBuffer { buffer, length };
                assert(prepared.length == instances@.len());
                assert(upload.ensures((sorted_copy,), prepared.buffer));
                assert(is_back_to_front(keys@, order) && sorted_copy@ == permuted(instances@, order));
                assert(is_sorted_upload(prepared, instances@, keys@, upload));
                *slot = Some(prepared);
            }
        },
    }
}

/// An entity whose collection is empty has no instance buffer after a pass
/// with a camera, whatever buffer it held before.
pub proof fn lemma_empty_collection_tears_down<T, B, F: Fn(Vec<T>) -> B>(
    before: Option<InstanceBuffer<B>>,
    after: Option<InstanceBuffer<B>>,
    instances: Seq<T>,
    keys: Vec<u32>,
    upload: F,
)
    requires
        prepared_slot(before, after, instances, Some(keys), upload),
        instances.len() == 0,
    ensures
        after is None,
{
}

/// After a pass with a camera, the buffer of a non-empty collection holds as
/// many instances as the collection, and they are its instances back to front.
pub proof fn lemma_prepared_length_matches<T, B, F: Fn(Vec<T>) -> B>(
    before: Option<InstanceBuffer<B>>,
    after: Option<InstanceBuffer<B>>,
    instances: Seq<T>,
    keys: Vec<u32>,
    upload: F,
)
    requires
        prepared_slot(before, after, instances, Some(keys), upload),
        instances.len() > 0,
    ensures
        after matches Some(b) && b.length == instances.len() && is_sorted_upload(
            b,
            instances,
            keys@,
            upload,
        ),
{
}

/// A pass without a camera leaves the slot exactly as it was.
pub proof fn lemma_no_camera_keeps_buffer<T, B, F: Fn(Vec<T>) -> B>(
    before: Option<InstanceBuffer<B>>,
    after: Option<InstanceBuffer<B>>,
    instances: Seq<T>,
    upload: F,
)
    requires
        prepared_slot(before, after, instances, None, upload),
    ensures
        after == before,
{
}

} // verus!
