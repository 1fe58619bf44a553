//! The wavefront integrator: the scheduler that sequences the four stage
//! dispatches of one frame — camera-ray generation over the dense pixel
//! grid, closest intersection over the ray queue's occupancy, material
//! evaluation over the compacted queue's occupancy, and the film update
//! over the pixel grid — sizing every dispatch from the producing queue's
//! occupancy, which is stable at each stage boundary.

use vstd::prelude::*;

use crate::kernels::{
    generate_camera_rays, hit_count, init_pixel_states, intersect_closest,
    lemma_compacted_slots_dense, lemma_compaction_monotonic, lemma_hit_count_mono,
    lemma_scatter_shape, lemma_scatter_untouched, lemma_scatter_written, put_film,
    spec_camera_ray_item, update_state,
};
use crate::registry::{KernelRegistry, StageKernel};
use crate::scene::Scene;
use crate::workitems::{
    zero_radiance, MaterialEvalWorkItem, Ray3f, RayWorkItem, SurfaceInteraction, TraceResult,
    Vec4Bits,
};
use crate::workqueue::WorkQueue;

verus! {

/// The number of threads of a dense per-pixel dispatch, checked: `None`
/// exactly when `width * height` overflows the 32-bit counter of a queue
/// header, so that no dispatch is ever issued with overflowing dimensions.
pub fn wavefront_size_checked(width: u32, height: u32) -> (r: Option<u32>)
    ensures
        match r {
            Some(n) => n == (width as int) * (height as int),
            None => (width as int) * (height as int) > u32::MAX,
        },
{
    proof {
        assert((width as int) * (height as int) <= 0xffff_ffff * 0xffff_ffff)
            by (nonlinear_arith)
            requires
                width as int <= 0xffff_ffff,
                height as int <= 0xffff_ffff,
        ;
    }
    let wide = (width as u64) * (height as u64);
    if wide <= u32::MAX as u64 {
        Some(wide as u32)
    } else {
        None
    }
}

/// The wavefront path integrator: holds the module handle of each stage
/// kernel, resolved once from the registry at construction.
pub struct WavefrontPathIntegrator {
    pub generate_camera_rays_ppl: u32,
    pub put_film: u32,
    pub update_state: u32,
    pub intersect_closest_ppl: u32,
}

impl WavefrontPathIntegrator {
    /// Resolves the four stage kernels from `registry`. Returns `None` —
    /// before any dispatch is issued — when any of them is missing, a
    /// kernel-binding mismatch that is fatal at setup time.
    pub fn new(registry: &KernelRegistry) -> (r: Option<WavefrontPathIntegrator>)
        ensures
            match r {
                Some(ig) => {
                    &&& registry.spec_lookup(StageKernel::GenerateCameraRays) == Some(
                        ig.generate_camera_rays_ppl,
                    )
                    &&& registry.spec_lookup(StageKernel::PutFilm) == Some(ig.put_film)
                    &&& registry.spec_lookup(StageKernel::UpdateState) == Some(ig.update_state)
                    &&& registry.spec_lookup(StageKernel::IntersectClosest) == Some(
                        ig.intersect_closest_ppl,
                    )
                },
                None => {
                    ||| registry.spec_lookup(StageKernel::GenerateCameraRays) is None
                    ||| registry.spec_lookup(StageKernel::PutFilm) is None
                    ||| registry.spec_lookup(StageKernel::UpdateState) is None
                    ||| registry.spec_lookup(StageKernel::IntersectClosest) is None
                },
            },
    {
        let generate = registry.lookup(StageKernel::GenerateCameraRays);
        let put = registry.lookup(StageKernel::PutFilm);
        let update = registry.lookup(StageKernel::UpdateState);
        let intersect = registry.lookup(StageKernel::IntersectClosest);
        match (generate, put, update, intersect) {
            (Some(g), Some(p), Some(u), Some(i)) => Some(
                WavefrontPathIntegrator {
                    generate_camera_rays_ppl: g,
                    put_film: p,
                    update_state: u,
                    intersect_closest_ppl: i,
                },
            ),
            _ => None,
        }
    }

    /// The camera-ray generation pass: dispatched densely, one thread per
    /// pixel of the grid; see [`generate_camera_rays`].
    pub fn generate_camera_rays(
        &self,
        width: u32,
        height: u32,
        rays_geom: &Vec<Ray3f>,
        out: &mut WorkQueue<RayWorkItem>,
    )
        requires
            old(out).wf(),
            old(out).occupancy() == 0,
            width * height <= u32::MAX,
            rays_geom@.len() == width * height,
            old(out).capacity() >= width * height,
        ensures
            final(out).wf(),
            final(out).capacity() == old(out).capacity(),
            final(out).occupancy() == width * height,
            forall|i: int|
                0 <= i < width * height ==> final(out).contents()[i] == spec_camera_ray_item(
                    rays_geom@,
                    i,
                ),
    {
        generate_camera_rays(width, height, rays_geom, out);
    }

    /// The intersection pass: dispatched over the ray queue's occupancy;
    /// see [`intersect_closest`].
    pub fn intersect_closest(
        &self,
        rays: &WorkQueue<RayWorkItem>,
        outcomes: &Vec<TraceResult>,
        instances: &Vec<crate::scene::Instance>,
        out: &mut WorkQueue<MaterialEvalWorkItem>,
    )
        requires
            rays.wf(),
            old(out).wf(),
            old(out).occupancy() == 0,
            old(out).capacity() >= rays.occupancy(),
            outcomes@.len() == rays.occupancy(),
            forall|i: int|
                0 <= i < outcomes@.len() ==> ((#[trigger] outcomes@[i])
                    matches TraceResult::Hit { instance, .. } ==> (instance as int)
                    < instances@.len()),
        ensures
            final(out).wf(),
            final(out).capacity() == old(out).capacity(),
            final(out).contents() == crate::kernels::spec_compacted(
                rays.contents(),
                outcomes@,
                instances@,
                rays.occupancy(),
            ),
            final(out).occupancy() == hit_count(outcomes@, rays.occupancy()),
            final(out).occupancy() <= rays.occupancy(),
    {
        intersect_closest(rays, outcomes, instances, out);
    }

    /// The material-evaluation pass: dispatched over the compacted queue's
    /// occupancy; see [`update_state`].
    pub fn update_state(
        &self,
        queue: &WorkQueue<MaterialEvalWorkItem>,
        radiance: &Vec<Vec4Bits>,
        states: &mut Vec<crate::workitems::PixelSampleState>,
    )
        requires
            queue.wf(),
            radiance@.len() == queue.occupancy(),
            crate::kernels::queue_pixels_bounded(
                queue.contents(),
                queue.occupancy(),
                old(states)@.len() as int,
            ),
        ensures
            final(states)@ == crate::kernels::spec_scattered(
                old(states)@,
                queue.contents(),
                radiance@,
                queue.occupancy(),
            ),
            final(states)@.len() == old(states)@.len(),
    {
        update_state(queue, radiance, states);
    }

    /// The film-update pass: dispatched densely, one thread per pixel; see
    /// [`put_film`].
    pub fn put_film(
        &self,
        states: &Vec<crate::workitems::PixelSampleState>,
        width: u32,
        img: &mut Vec<Vec4Bits>,
    )
        requires
            width > 0,
            old(img)@.len() == states@.len(),
            forall|i: int|
                0 <= i < states@.len() ==> {
                    &&& ((#[trigger] states@[i]).pixel.x as int) == i % (width as int)
                    &&& ((states@[i]).pixel.y as int) == i / (width as int)
                },
        ensures
            final(img)@.len() == states@.len(),
            forall|i: int|
                0 <= i < states@.len() ==> #[trigger] final(img)@[i] == states@[i].radiance,
    {
        put_film(states, width, img);
    }

    /// Renders one frame: generate camera rays densely over the pixel
    /// grid, intersect them against the scene, evaluate materials for the
    /// compacted hit set, and update the film. Returns the radiance image
    /// by flat pixel index.
    ///
    /// The two pluggable capabilities are handed in as data: `outcomes` is
    /// what the scene's ray query reported per pixel's ray, and
    /// `eval_radiance` is the radiance the shading capability computes for
    /// each pixel whose ray hit. The frame theorem: a pixel whose ray hit
    /// receives its evaluated radiance; every other pixel keeps the zero
    /// default.
    pub fn render(
        &self,
        scene: &Scene,
        rays_geom: &Vec<Ray3f>,
        outcomes: &Vec<TraceResult>,
        eval_radiance: &Vec<Vec4Bits>,
        width: u32,
        height: u32,
    ) -> (img: Vec<Vec4Bits>)
        requires
            scene.wf(),
            width > 0,
            (width as int) * (height as int) <= u32::MAX,
            rays_geom@.len() == (width as int) * (height as int),
            outcomes@.len() == (width as int) * (height as int),
            eval_radiance@.len() == (width as int) * (height as int),
            forall|i: int|
                0 <= i < outcomes@.len() ==> ((#[trigger] outcomes@[i])
                    matches TraceResult::Hit { instance, .. } ==> (instance as int)
                    < scene.instances@.len()),
        ensures
            img@.len() == (width as int) * (height as int),
            forall|p: int|
                0 <= p < outcomes@.len() ==> #[trigger] img@[p] == (if outcomes@[p] is Hit {
                    eval_radiance@[p]
                } else {
                    zero_radiance()
                }),
    {
        let wavefront_size = width * height;

        let fill_ray = RayWorkItem {
            ray: Ray3f {
                o: Vec4Bits::zero(),
                d: Vec4Bits::zero(),
                tmin: 0,
                tmax: 0,
                t: 0,
            },
            beta: Vec4Bits::zero(),
            pixel_idx: 0,
        };
        let mut rays: WorkQueue<RayWorkItem> = WorkQueue::new(wavefront_size, fill_ray);
        generate_camera_rays(width, height, rays_geom, &mut rays);

        let fill_eval = MaterialEvalWorkItem {
            si: SurfaceInteraction {
                p: Vec4Bits::zero(),
                dist: 0,
                t: 0,
                instance: 0,
                primitive: 0,
                material: 0,
            },
            pixel_idx: 0,
        };
        let mut meq: WorkQueue<MaterialEvalWorkItem> = WorkQueue::new(wavefront_size, fill_eval);
        intersect_closest(&rays, outcomes, &scene.instances, &mut meq);

        proof {
            assert forall|p: int|
                0 <= p < wavefront_size implies ((#[trigger] rays.contents()[p]).pixel_idx
                as int) == p by {
                assert(rays.contents()[p] == spec_camera_ray_item(rays_geom@, p));
            }
            lemma_compacted_slots_dense(
                rays.contents(),
                outcomes@,
                scene.instances@,
                wavefront_size as int,
            );
        }

        let mut states = init_pixel_states(width, height);
        let ghost st0 = states@;

        // The material-evaluation dispatch's per-slot radiance: slot `j`'s
        // contribution is what the shading capability computed for slot
        // `j`'s origin pixel.
        let m = meq.len();
        let mut slot_rad: Vec<Vec4Bits> = Vec::new();
        let mut j: u32 = 0;
        while j < m
            invariant
                meq.wf(),
                j <= m,
                m == meq.occupancy(),
                eval_radiance@.len() == wavefront_size,
                slot_rad@.len() == j as int,
                forall|l: int|
                    0 <= l < m ==> 0 <= ((#[trigger] meq.contents()[l]).pixel_idx as int)
                        < wavefront_size,
                forall|l: int|
                    0 <= l < j ==> #[trigger] slot_rad@[l]
                        == eval_radiance@[meq.contents()[l].pixel_idx as int],
            decreases m - j,
        {
            let it = *meq.item(j);
            slot_rad.push(eval_radiance[it.pixel_idx as usize]);
            j = j + 1;
        }

        update_state(&meq, &slot_rad, &mut states);

        let mut img: Vec<Vec4Bits> = Vec::new();
        let mut i: u32 = 0;
        while i < wavefront_size
            invariant
                i <= wavefront_size,
                img@.len() == i as int,
            decreases wavefront_size - i,
        {
            img.push(Vec4Bits::zero());
            i = i + 1;
        }
        proof {
            lemma_scatter_shape(st0, meq.contents(), slot_rad@, m as int);
        }
        put_film(&states, width, &mut img);

        proof {
            let meq_items = meq.contents();
            let wh = wavefront_size as int;
            // Slots of the compacted queue target pairwise distinct pixels.
            assert forall|j1: int, j2: int|
                0 <= j1 < j2 < m implies (#[trigger] meq_items[j1]).pixel_idx
                != (#[trigger] meq_items[j2]).pixel_idx by {
                assert(hit_count(outcomes@, meq_items[j1].pixel_idx as int) == j1);
                assert(hit_count(outcomes@, meq_items[j2].pixel_idx as int) == j2);
            }
            assert forall|p: int|
                0 <= p < wh implies #[trigger] img@[p] == (if outcomes@[p] is Hit {
                eval_radiance@[p]
            } else {
                zero_radiance()
            }) by {
                if outcomes@[p] is Hit {
                    let jj = hit_count(outcomes@, p);
                    lemma_compaction_monotonic(outcomes@, p);
                    assert(hit_count(outcomes@, p + 1) == jj + 1);
                    lemma_hit_count_mono(outcomes@, p + 1, wh);
                    assert(0 <= jj < m);
                    assert((meq_items[jj].pixel_idx as int) == p);
                    lemma_scatter_written(st0, meq_items, slot_rad@, m as int, jj);
                    assert(states@[p].radiance == slot_rad@[jj]);
                    assert(slot_rad@[jj] == eval_radiance@[p]);
                } else {
                    assert forall|l: int|
                        0 <= l < m implies ((#[trigger] meq_items[l]).pixel_idx as int)
                        != p by {
                        assert(outcomes@[meq_items[l].pixel_idx as int] is Hit);
                    }
                    lemma_scatter_untouched(st0, meq_items, slot_rad@, m as int, p);
                    assert(states@[p] == st0[p]);
                }
            }
        }
        img
    }
}

/// The single-kernel path integrator the wavefront pipeline supersedes:
/// kept as the name of that integrator variant; the consolidated stage
/// sequence lives in [`WavefrontPathIntegrator`].
pub struct PathIntegrator {}

} // verus!
