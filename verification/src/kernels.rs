//! Whole-dispatch semantics of the four stage kernels.
//!
//! Each kernel is a parallel, per-thread function on the device; threads
//! communicate only through queue pushes and collision-free indexed writes,
//! so one dispatch is equivalent to iterating the per-thread body over all
//! thread indices. These functions state and verify exactly that meaning:
//! camera-ray generation is dense over the pixel grid, intersection
//! compacts the ray stream by dropping misses, material evaluation
//! scatter-writes per-pixel state, and film update copies that state into
//! the output image. A dispatch over an empty queue does no work.

use vstd::prelude::*;

use crate::scene::Instance;
use crate::workitems::{
    identity_throughput, zero_radiance, MaterialEvalWorkItem, PixelSampleState, Ray3f,
    RayWorkItem, SurfaceInteraction, TraceResult, UVec2, Vec4Bits, F32_ONE_BITS,
};
use crate::workqueue::WorkQueue;

verus! {

/// The ray item thread `idx` writes: the precomputed camera ray of pixel
/// `idx`, the identity throughput, and the pixel's flat index.
pub open spec fn spec_camera_ray_item(rays_geom: Seq<Ray3f>, idx: int) -> RayWorkItem {
    RayWorkItem { ray: rays_geom[idx], beta: identity_throughput(), pixel_idx: idx as u32 }
}

/// Some slot of `items` carries pixel index `v`.
pub open spec fn has_pixel(items: Seq<RayWorkItem>, v: int) -> bool {
    exists|i: int| 0 <= i < items.len() && ((#[trigger] items[i]).pixel_idx as int) == v
}

/// The camera-ray generation dispatch: one thread per pixel of a
/// `width x height` grid, thread `idx` writing one ray item into slot `idx`
/// of the ray queue. Dense: no pixel is dropped, and afterwards the queue's
/// occupancy is exactly the pixel count.
///
/// The numeric ray of each pixel (jittered sample position unprojected
/// through the camera) is floating-point work done by the camera
/// collaborator and handed in through `rays_geom`, one ray per pixel.
pub fn generate_camera_rays(
    width: u32,
    height: u32,
    rays_geom: &Vec<Ray3f>,
    out: &mut WorkQueue<RayWorkItem>,
)
    requires
        old(out).wf(),
        old(out).occupancy() == 0,
        width * height <= u32::MAX,
        rays_geom@.len() == width * height,
        old(out).capacity() >= width * height,
    ensures
        final(out).wf(),
        final(out).capacity() == old(out).capacity(),
        final(out).occupancy() == width * height,
        forall|i: int|
            0 <= i < width * height ==> final(out).contents()[i] == spec_camera_ray_item(
                rays_geom@,
                i,
            ),
{
    let wavefront_size = width * height;
    let mut idx: u32 = 0;
    while idx < wavefront_size
        invariant
            out.wf(),
            idx <= wavefront_size,
            rays_geom@.len() == wavefront_size,
            out.capacity() == old(out).capacity(),
            old(out).capacity() >= wavefront_size,
            out.occupancy() == idx,
            forall|i: int|
                0 <= i < idx ==> out.contents()[i] == spec_camera_ray_item(rays_geom@, i),
        decreases wavefront_size - idx,
    {
        let item = RayWorkItem {
            ray: rays_geom[idx as usize],
            beta: Vec4Bits::ones(),
            pixel_idx: idx,
        };
        out.push(item);
        idx = idx + 1;
    }
}

/// Dense generation bijection: a run whose slot `i` carries pixel index `i`
/// covers the pixel range exactly — its pixel indices are pairwise distinct
/// and every pixel index below the run's length occurs.
pub proof fn lemma_dense_pixel_bijection(items: Seq<RayWorkItem>)
    requires
        forall|i: int| 0 <= i < items.len() ==> ((#[trigger] items[i]).pixel_idx as int) == i,
    ensures
        forall|i: int, j: int|
            0 <= i < j < items.len() ==> #[trigger] items[i].pixel_idx != #[trigger] items[j].pixel_idx,
        forall|v: int| 0 <= v < items.len() ==> #[trigger] has_pixel(items, v),
{
    assert forall|v: int| 0 <= v < items.len() implies #[trigger] has_pixel(items, v) by {
        assert((items[v].pixel_idx as int) == v);
    }
}

/// The material-evaluation item produced when the trace of ray item `r`
/// reports a hit: the resolved surface interaction, with the material id
/// looked up through the instance table, carrying `r`'s pixel index.
pub open spec fn spec_eval_item(
    r: RayWorkItem,
    tr: TraceResult,
    instances: Seq<Instance>,
) -> MaterialEvalWorkItem
    recommends
        tr is Hit,
{
    match tr {
        TraceResult::Hit { instance, primitive, uv, dist, p } => MaterialEvalWorkItem {
            si: SurfaceInteraction {
                p,
                dist,
                t: F32_ONE_BITS,
                instance,
                primitive,
                material: instances[instance as int].material,
            },
            pixel_idx: r.pixel_idx,
        },
        TraceResult::Miss => MaterialEvalWorkItem {
            si: SurfaceInteraction {
                p: zero_radiance(),
                dist: 0,
                t: 0,
                instance: 0,
                primitive: 0,
                material: 0,
            },
            pixel_idx: r.pixel_idx,
        },
    }
}

/// How many of the first `k` trace outcomes are hits.
pub open spec fn hit_count(outcomes: Seq<TraceResult>, k: int) -> int
    decreases k,
{
    if k <= 0 {
        0
    } else {
        hit_count(outcomes, k - 1) + if outcomes[k - 1] is Hit {
            1int
        } else {
            0int
        }
    }
}

/// The material-evaluation queue contents after the first `k` intersection
/// threads have retired in slot order: one item per hit, misses dropped.
pub open spec fn spec_compacted(
    rays: Seq<RayWorkItem>,
    outcomes: Seq<TraceResult>,
    instances: Seq<Instance>,
    k: int,
) -> Seq<MaterialEvalWorkItem>
    decreases k,
{
    if k <= 0 {
        Seq::empty()
    } else {
        let pre = spec_compacted(rays, outcomes, instances, k - 1);
        if outcomes[k - 1] is Hit {
            pre.push(spec_eval_item(rays[k - 1], outcomes[k - 1], instances))
        } else {
            pre
        }
    }
}

/// Compaction monotonicity: an intersection dispatch over `k` rays yields
/// at most `k` material-evaluation items — exactly `k` when every ray hits,
/// and exactly `0` when every ray misses.
pub proof fn lemma_compaction_monotonic(outcomes: Seq<TraceResult>, k: int)
    ensures
        hit_count(outcomes, k) <= if k >= 0 {
            k
        } else {
            0int
        },
        0 <= hit_count(outcomes, k),
        (forall|i: int| 0 <= i < k ==> (#[trigger] outcomes[i]) is Hit) ==> hit_count(outcomes, k)
            == if k >= 0 {
            k
        } else {
            0int
        },
        (forall|i: int| 0 <= i < k ==> !((#[trigger] outcomes[i]) is Hit)) ==> hit_count(
            outcomes,
            k,
        ) == 0,
    decreases
            (if k >= 0 {
                k
            } else {
                0int
            }),
{
    if k > 0 {
        lemma_compaction_monotonic(outcomes, k - 1);
    }
}

/// The length of the compacted run equals the hit count.
pub proof fn lemma_compacted_len(
    rays: Seq<RayWorkItem>,
    outcomes: Seq<TraceResult>,
    instances: Seq<Instance>,
    k: int,
)
    ensures
        spec_compacted(rays, outcomes, instances, k).len() == hit_count(outcomes, k),
    decreases
            (if k >= 0 {
                k
            } else {
                0int
            }),
{
    if k > 0 {
        lemma_compacted_len(rays, outcomes, instances, k - 1);
        lemma_compaction_monotonic(outcomes, k - 1);
    }
}

/// The hit count is monotone in the number of threads considered.
pub proof fn lemma_hit_count_mono(outcomes: Seq<TraceResult>, a: int, b: int)
    requires
        0 <= a <= b,
    ensures
        hit_count(outcomes, a) <= hit_count(outcomes, b),
    decreases b - a,
{
    if a < b {
        lemma_hit_count_mono(outcomes, a, b - 1);
    }
}

/// Characterises each slot of the compacted run when the input rays are
/// dense (slot `p` carries pixel index `p`, as after camera-ray
/// generation): slot `j` holds the evaluation item of the `j`-th hit pixel,
/// and conversely the `j`-th hit pixel's item sits in slot `j`.
pub proof fn lemma_compacted_slots_dense(
    rays: Seq<RayWorkItem>,
    outcomes: Seq<TraceResult>,
    instances: Seq<Instance>,
    k: int,
)
    requires
        rays.len() >= k,
        outcomes.len() >= k,
        forall|p: int| 0 <= p < k ==> ((#[trigger] rays[p]).pixel_idx as int) == p,
    ensures
        forall|j: int|
            0 <= j < spec_compacted(rays, outcomes, instances, k).len() ==> {
                let it = #[trigger] spec_compacted(rays, outcomes, instances, k)[j];
                let p = it.pixel_idx as int;
                &&& 0 <= p < k
                &&& outcomes[p] is Hit
                &&& hit_count(outcomes, p) == j
                &&& it == spec_eval_item(rays[p], outcomes[p], instances)
            },
        forall|p: int|
            0 <= p < k && (#[trigger] outcomes[p]) is Hit ==> spec_compacted(
                rays,
                outcomes,
                instances,
                k,
            )[hit_count(outcomes, p)] == spec_eval_item(rays[p], outcomes[p], instances),
    decreases
            (if k >= 0 {
                k
            } else {
                0int
            }),
{
    if k > 0 {
        lemma_compacted_slots_dense(rays, outcomes, instances, k - 1);
        lemma_compacted_len(rays, outcomes, instances, k - 1);
        lemma_compaction_monotonic(outcomes, k - 1);
        let pre = spec_compacted(rays, outcomes, instances, k - 1);
        let cur = spec_compacted(rays, outcomes, instances, k);
        if outcomes[k - 1] is Hit {
            let item = spec_eval_item(rays[k - 1], outcomes[k - 1], instances);
            assert(cur == pre.push(item));
            assert((item.pixel_idx as int) == k - 1);
            assert(hit_count(outcomes, k - 1) == pre.len());
            assert forall|j: int| 0 <= j < cur.len() implies {
                let it = #[trigger] cur[j];
                let p = it.pixel_idx as int;
                &&& 0 <= p < k
                &&& outcomes[p] is Hit
                &&& hit_count(outcomes, p) == j
                &&& it == spec_eval_item(rays[p], outcomes[p], instances)
            } by {
                if j < pre.len() {
                    assert(cur[j] == pre[j]);
                } else {
                    assert(cur[j] == item);
                }
            }
        } else {
            assert(cur == pre);
        }
        assert forall|p: int| 0 <= p < k && (#[trigger] outcomes[p]) is Hit implies cur[hit_count(
            outcomes,
            p,
        )] == spec_eval_item(rays[p], outcomes[p], instances) by {
            if p < k - 1 {
                lemma_hit_count_mono(outcomes, p + 1, k - 1);
                lemma_compaction_monotonic(outcomes, p);
                assert(hit_count(outcomes, p + 1) == hit_count(outcomes, p) + 1);
                assert(hit_count(outcomes, p) < pre.len());
                if outcomes[k - 1] is Hit {
                    let item = spec_eval_item(rays[k - 1], outcomes[k - 1], instances);
                    assert(cur == pre.push(item));
                    assert(pre.push(item)[hit_count(outcomes, p)] == pre[hit_count(
                        outcomes,
                        p,
                    )]);
                }
            }
        }
    }
}

/// The intersection dispatch: one thread per occupied ray-queue slot. The
/// scene's ray-query capability has already reported, per slot, a hit or a
/// miss (`outcomes`); a hit thread resolves the material through the
/// instance table and pushes a material-evaluation item, a miss thread
/// drops its ray — the stream-compaction step. The output occupancy is the
/// number of hits, hence never more than the ray occupancy.
pub fn intersect_closest(
    rays: &WorkQueue<RayWorkItem>,
    outcomes: &Vec<TraceResult>,
    instances: &Vec<Instance>,
    out: &mut WorkQueue<MaterialEvalWorkItem>,
)
    requires
        rays.wf(),
        old(out).wf(),
        old(out).occupancy() == 0,
        old(out).capacity() >= rays.occupancy(),
        outcomes@.len() == rays.occupancy(),
        forall|i: int|
            0 <= i < outcomes@.len() ==> ((#[trigger] outcomes@[i]) matches TraceResult::Hit {
                instance,
                ..
            } ==> (instance as int) < instances@.len()),
    ensures
        final(out).wf(),
        final(out).capacity() == old(out).capacity(),
        final(out).contents() == spec_compacted(
            rays.contents(),
            outcomes@,
            instances@,
            rays.occupancy(),
        ),
        final(out).occupancy() == hit_count(outcomes@, rays.occupancy()),
        final(out).occupancy() <= rays.occupancy(),
{
    let n = rays.len();
    let mut k: u32 = 0;
    while k < n
        invariant
            rays.wf(),
            out.wf(),
            k <= n,
            n == rays.occupancy(),
            outcomes@.len() == n,
            out.capacity() == old(out).capacity(),
            old(out).capacity() >= n,
            forall|i: int|
                0 <= i < outcomes@.len() ==> ((#[trigger] outcomes@[i])
                    matches TraceResult::Hit { instance, .. } ==> (instance as int)
                    < instances@.len()),
            out.contents() == spec_compacted(rays.contents(), outcomes@, instances@, k as int),
            out.occupancy() == hit_count(outcomes@, k as int),
        decreases n - k,
    {
        proof {
            lemma_compaction_monotonic(outcomes@, k as int);
        }
        let ray = *rays.item(k);
        match outcomes[k as usize] {
            TraceResult::Hit { instance, primitive, uv: _, dist, p } => {
                proof {
                    assert(outcomes@[k as int] matches TraceResult::Hit { instance: i2, .. }
                        ==> (i2 as int) < instances@.len());
                }
                let inst = instances[instance as usize];
                let item = MaterialEvalWorkItem {
                    si: SurfaceInteraction {
                        p,
                        dist,
                        t: F32_ONE_BITS,
                        instance,
                        primitive,
                        material: inst.material,
                    },
                    pixel_idx: ray.pixel_idx,
                };
                out.push(item);
            },
            TraceResult::Miss => {},
        }
        k = k + 1;
    }
    proof {
        lemma_compaction_monotonic(outcomes@, n as int);
    }
}

/// The pixel-state array after the first `k` material-evaluation threads
/// have retired in slot order: thread `j` scatter-writes its radiance into
/// the state of its origin pixel, leaving the pixel coordinate in place.
pub open spec fn spec_scattered(
    states0: Seq<PixelSampleState>,
    queue: Seq<MaterialEvalWorkItem>,
    radiance: Seq<Vec4Bits>,
    k: int,
) -> Seq<PixelSampleState>
    decreases k,
{
    if k <= 0 {
        states0
    } else {
        let pre = spec_scattered(states0, queue, radiance, k - 1);
        let p = queue[k - 1].pixel_idx as int;
        pre.update(p, PixelSampleState { pixel: pre[p].pixel, radiance: radiance[k - 1] })
    }
}

/// Every origin pixel of the first `k` queue slots indexes into a state
/// array of length `n`.
pub open spec fn queue_pixels_bounded(queue: Seq<MaterialEvalWorkItem>, k: int, n: int) -> bool {
    forall|j: int| 0 <= j < k ==> ((#[trigger] queue[j]).pixel_idx as int) < n
}

/// Scattering preserves the array's length and every entry's pixel
/// coordinate: only radiance values change.
pub proof fn lemma_scatter_shape(
    states0: Seq<PixelSampleState>,
    queue: Seq<MaterialEvalWorkItem>,
    radiance: Seq<Vec4Bits>,
    k: int,
)
    requires
        queue_pixels_bounded(queue, k, states0.len() as int),
    ensures
        spec_scattered(states0, queue, radiance, k).len() == states0.len(),
        forall|p: int|
            0 <= p < states0.len() ==> (#[trigger] spec_scattered(
                states0,
                queue,
                radiance,
                k,
            )[p]).pixel == states0[p].pixel,
    decreases
            (if k >= 0 {
                k
            } else {
                0int
            }),
{
    if k > 0 {
        lemma_scatter_shape(states0, queue, radiance, k - 1);
    }
}

/// A pixel that none of the first `k` threads targets keeps its entry —
/// radiance included — untouched.
pub proof fn lemma_scatter_untouched(
    states0: Seq<PixelSampleState>,
    queue: Seq<MaterialEvalWorkItem>,
    radiance: Seq<Vec4Bits>,
    k: int,
    p: int,
)
    requires
        queue_pixels_bounded(queue, k, states0.len() as int),
        0 <= p < states0.len(),
        forall|j: int| 0 <= j < k ==> ((#[trigger] queue[j]).pixel_idx as int) != p,
    ensures
        spec_scattered(states0, queue, radiance, k)[p] == states0[p],
    decreases
            (if k >= 0 {
                k
            } else {
                0int
            }),
{
    if k > 0 {
        lemma_scatter_untouched(states0, queue, radiance, k - 1, p);
        lemma_scatter_shape(states0, queue, radiance, k - 1);
        assert(((queue[k - 1]).pixel_idx as int) != p);
    }
}

/// When the first `k` threads target pairwise distinct pixels — as they do
/// in this pipeline, where each queue slot originates from a different
/// pixel — thread `j`'s write is never overwritten: the final state of its
/// pixel holds exactly its radiance. This is why the scatter needs no
/// atomics.
pub proof fn lemma_scatter_written(
    states0: Seq<PixelSampleState>,
    queue: Seq<MaterialEvalWorkItem>,
    radiance: Seq<Vec4Bits>,
    k: int,
    j: int,
)
    requires
        queue_pixels_bounded(queue, k, states0.len() as int),
        forall|j1: int, j2: int|
            0 <= j1 < j2 < k ==> (#[trigger] queue[j1]).pixel_idx != (#[trigger] queue[j2]).pixel_idx,
        0 <= j < k,
        radiance.len() >= k,
    ensures
        spec_scattered(states0, queue, radiance, k)[queue[j].pixel_idx as int].radiance
            == radiance[j],
    decreases k,
{
    lemma_scatter_shape(states0, queue, radiance, k - 1);
    if j == k - 1 {
    } else {
        lemma_scatter_written(states0, queue, radiance, k - 1, j);
        assert(queue[k - 1].pixel_idx != queue[j].pixel_idx);
    }
}

/// The material-evaluation dispatch: one thread per occupied slot of the
/// material-evaluation queue. The radiance contribution each thread
/// computes from its surface interaction is the pluggable shading
/// capability's work, handed in per slot through `radiance`; the verified
/// step is the scatter-write of slot `j`'s radiance into the sample state
/// of slot `j`'s origin pixel.
pub fn update_state(
    queue: &WorkQueue<MaterialEvalWorkItem>,
    radiance: &Vec<Vec4Bits>,
    states: &mut Vec<PixelSampleState>,
)
    requires
        queue.wf(),
        radiance@.len() == queue.occupancy(),
        queue_pixels_bounded(queue.contents(), queue.occupancy(), old(states)@.len() as int),
    ensures
        final(states)@ == spec_scattered(
            old(states)@,
            queue.contents(),
            radiance@,
            queue.occupancy(),
        ),
        final(states)@.len() == old(states)@.len(),
{
    let n = queue.len();
    let mut k: u32 = 0;
    while k < n
        invariant
            queue.wf(),
            k <= n,
            n == queue.occupancy(),
            radiance@.len() == n,
            queue_pixels_bounded(queue.contents(), n as int, old(states)@.len() as int),
            states@ == spec_scattered(old(states)@, queue.contents(), radiance@, k as int),
            states@.len() == old(states)@.len(),
        decreases n - k,
    {
        let item = *queue.item(k);
        proof {
            assert(((queue.contents()[k as int]).pixel_idx as int) < old(states)@.len());
        }
        let p = item.pixel_idx as usize;
        let pixel = states[p].pixel;
        states.set(p, PixelSampleState { pixel, radiance: radiance[k as usize] });
        k = k + 1;
    }
}

/// Allocates the dense per-pixel sample-state array for a
/// `width x height` frame: entry `i` belongs to pixel
/// `(i % width, i / width)` and starts with zero radiance.
pub fn init_pixel_states(width: u32, height: u32) -> (states: Vec<PixelSampleState>)
    requires
        width > 0,
        width * height <= u32::MAX,
    ensures
        states@.len() == width * height,
        forall|i: int|
            0 <= i < states@.len() ==> {
                &&& ((#[trigger] states@[i]).pixel.x as int) == i % (width as int)
                &&& ((states@[i]).pixel.y as int) == i / (width as int)
                &&& (states@[i]).radiance == zero_radiance()
            },
{
    let wavefront_size = width * height;
    let mut states: Vec<PixelSampleState> = Vec::new();
    let mut i: u32 = 0;
    while i < wavefront_size
        invariant
            i <= wavefront_size,
            width > 0,
            states@.len() == i,
            forall|j: int|
                0 <= j < i ==> {
                    &&& ((#[trigger] states@[j]).pixel.x as int) == j % (width as int)
                    &&& ((states@[j]).pixel.y as int) == j / (width as int)
                    &&& (states@[j]).radiance == zero_radiance()
                },
        decreases wavefront_size - i,
    {
        let x = i % width;
        let y = i / width;
        states.push(PixelSampleState { pixel: UVec2 { x, y }, radiance: Vec4Bits::zero() });
        i = i + 1;
    }
    states
}

/// The film-update dispatch: one thread per pixel, reading that pixel's
/// sample state and writing its radiance into the output image at the
/// pixel's coordinate. Dense — every pixel is written, and always succeeds.
pub fn put_film(states: &Vec<PixelSampleState>, width: u32, img: &mut Vec<Vec4Bits>)
    requires
        width > 0,
        old(img)@.len() == states@.len(),
        forall|i: int|
            0 <= i < states@.len() ==> {
                &&& ((#[trigger] states@[i]).pixel.x as int) == i % (width as int)
                &&& ((states@[i]).pixel.y as int) == i / (width as int)
            },
    ensures
        final(img)@.len() == states@.len(),
        forall|i: int|
            0 <= i < states@.len() ==> #[trigger] final(img)@[i] == states@[i].radiance,
{
    let n = states.len();
    let mut i: usize = 0;
    while i < n
        invariant
            n == states@.len(),
            img@.len() == n,
            i <= n,
            width > 0,
            forall|j: int|
                0 <= j < n ==> {
                    &&& ((#[trigger] states@[j]).pixel.x as int) == j % (width as int)
                    &&& ((states@[j]).pixel.y as int) == j / (width as int)
                },
            forall|j: int| 0 <= j < i ==> #[trigger] img@[j] == states@[j].radiance,
            forall|j: int| i <= j < n ==> #[trigger] img@[j] == old(img)@[j],
        decreases n - i,
    {
        let st = states[i];
        proof {
            assert(((st.pixel.y as int) * (width as int) + (st.pixel.x as int)) == i as int)
                by (nonlinear_arith)
                requires
                    (st.pixel.x as int) == (i as int) % (width as int),
                    (st.pixel.y as int) == (i as int) / (width as int),
                    width > 0,
                    0 <= i as int,
            ;
        }
        let target = (st.pixel.y as usize) * (width as usize) + (st.pixel.x as usize);
        img.set(target, st.radiance);
        i = i + 1;
    }
}

} // verus!
