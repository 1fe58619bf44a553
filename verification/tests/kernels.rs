use wavefront::kernels::{
    generate_camera_rays, init_pixel_states, intersect_closest, put_film, update_state,
};
use wavefront::scene::Instance;
use wavefront::workitems::{
    MaterialEvalWorkItem, Mat4Bits, PixelSampleState, Ray3f, RayWorkItem, SurfaceInteraction,
    TraceResult, UVec2, Vec2Bits, Vec4Bits, F32_ONE_BITS,
};
use wavefront::workqueue::WorkQueue;

fn zero4() -> Vec4Bits {
    Vec4Bits { x: 0, y: 0, z: 0, w: 0 }
}

fn test_ray(tag: u32) -> Ray3f {
    Ray3f {
        o: Vec4Bits { x: tag, y: 0, z: 0, w: 0 },
        d: Vec4Bits { x: 0, y: tag, z: 0, w: 0 },
        tmin: 1,
        tmax: 2,
        t: 0,
    }
}

fn fill_ray_item() -> RayWorkItem {
    RayWorkItem { ray: test_ray(0), beta: zero4(), pixel_idx: 0 }
}

fn fill_eval_item() -> MaterialEvalWorkItem {
    MaterialEvalWorkItem {
        si: SurfaceInteraction { p: zero4(), dist: 0, t: 0, instance: 0, primitive: 0, material: 0 },
        pixel_idx: 0,
    }
}

fn identity_mat() -> Mat4Bits {
    let one = F32_ONE_BITS;
    Mat4Bits {
        c0: Vec4Bits { x: one, y: 0, z: 0, w: 0 },
        c1: Vec4Bits { x: 0, y: one, z: 0, w: 0 },
        c2: Vec4Bits { x: 0, y: 0, z: one, w: 0 },
        c3: Vec4Bits { x: 0, y: 0, z: 0, w: one },
    }
}

fn instance_with_material(material: u32) -> Instance {
    Instance { to_world: identity_mat(), mesh: 0, material, emitter: -1 }
}

#[test]
fn generation_is_dense_over_the_pixel_grid() {
    let width = 4u32;
    let height = 4u32;
    let rays_geom: Vec<Ray3f> = (0..16).map(test_ray).collect();
    let mut q: WorkQueue<RayWorkItem> = WorkQueue::new(16, fill_ray_item());
    generate_camera_rays(width, height, &rays_geom, &mut q);
    assert_eq!(q.len(), 16);
    // Pixel indices are exactly 0..16, each exactly once, in slot order.
    let mut seen = [false; 16];
    for slot in 0..16u32 {
        let item = *q.item(slot);
        assert_eq!(item.pixel_idx, slot);
        assert!(!seen[item.pixel_idx as usize]);
        seen[item.pixel_idx as usize] = true;
        // Each item carries its pixel's camera ray and identity throughput.
        assert_eq!(item.ray, test_ray(slot));
        let one = F32_ONE_BITS;
        assert_eq!(item.beta, Vec4Bits { x: one, y: one, z: one, w: one });
    }
    assert!(seen.iter().all(|s| *s));
}

#[test]
fn intersection_compacts_misses_and_resolves_materials() {
    let rays_geom: Vec<Ray3f> = (0..3).map(test_ray).collect();
    let mut rays: WorkQueue<RayWorkItem> = WorkQueue::new(3, fill_ray_item());
    generate_camera_rays(3, 1, &rays_geom, &mut rays);

    let hit = |instance: u32, dist: u32| TraceResult::Hit {
        instance,
        primitive: 5,
        uv: Vec2Bits { x: 11, y: 12 },
        dist,
        p: Vec4Bits { x: 1, y: 2, z: 3, w: 4 },
    };
    let outcomes = vec![hit(0, 100), TraceResult::Miss, hit(1, 200)];
    let instances = vec![instance_with_material(7), instance_with_material(9)];

    let mut out: WorkQueue<MaterialEvalWorkItem> = WorkQueue::new(3, fill_eval_item());
    intersect_closest(&rays, &outcomes, &instances, &mut out);

    // One item per hit, misses dropped, origin pixels kept.
    assert_eq!(out.len(), 2);
    let first = *out.item(0);
    assert_eq!(first.pixel_idx, 0);
    assert_eq!(first.si.instance, 0);
    assert_eq!(first.si.primitive, 5);
    assert_eq!(first.si.dist, 100);
    assert_eq!(first.si.material, 7);
    assert_eq!(first.si.t, F32_ONE_BITS);
    assert_eq!(first.si.p, Vec4Bits { x: 1, y: 2, z: 3, w: 4 });
    let second = *out.item(1);
    assert_eq!(second.pixel_idx, 2);
    assert_eq!(second.si.instance, 1);
    assert_eq!(second.si.material, 9);
}

#[test]
fn intersection_with_all_hits_keeps_full_occupancy() {
    let rays_geom: Vec<Ray3f> = (0..4).map(test_ray).collect();
    let mut rays: WorkQueue<RayWorkItem> = WorkQueue::new(4, fill_ray_item());
    generate_camera_rays(2, 2, &rays_geom, &mut rays);
    let outcomes: Vec<TraceResult> = (0..4)
        .map(|_| TraceResult::Hit {
            instance: 0,
            primitive: 0,
            uv: Vec2Bits { x: 0, y: 0 },
            dist: 1,
            p: zero4(),
        })
        .collect();
    let instances = vec![instance_with_material(3)];
    let mut out: WorkQueue<MaterialEvalWorkItem> = WorkQueue::new(4, fill_eval_item());
    intersect_closest(&rays, &outcomes, &instances, &mut out);
    assert_eq!(out.len(), 4);
}

#[test]
fn intersection_with_all_misses_yields_empty_queue() {
    let rays_geom: Vec<Ray3f> = (0..4).map(test_ray).collect();
    let mut rays: WorkQueue<RayWorkItem> = WorkQueue::new(4, fill_ray_item());
    generate_camera_rays(2, 2, &rays_geom, &mut rays);
    let outcomes: Vec<TraceResult> = (0..4).map(|_| TraceResult::Miss).collect();
    let instances: Vec<Instance> = Vec::new();
    let mut out: WorkQueue<MaterialEvalWorkItem> = WorkQueue::new(4, fill_eval_item());
    intersect_closest(&rays, &outcomes, &instances, &mut out);
    assert_eq!(out.len(), 0);
}

#[test]
fn cleared_queue_is_reused_across_frames_without_reallocation() {
    // Frame-to-frame reuse: clear keeps the allocation, and a smaller
    // second frame repopulates it without stale entries leaking.
    let rays_geom: Vec<Ray3f> = (0..6).map(test_ray).collect();
    let mut q: WorkQueue<RayWorkItem> = WorkQueue::new(6, fill_ray_item());
    generate_camera_rays(3, 2, &rays_geom, &mut q);
    assert_eq!(q.len(), 6);
    q.clear();
    assert_eq!(q.len(), 0);
    assert_eq!(q.cap(), 6);
    let smaller: Vec<Ray3f> = (10..12).map(test_ray).collect();
    generate_camera_rays(2, 1, &smaller, &mut q);
    assert_eq!(q.len(), 2);
    assert_eq!(q.items().len(), 2);
    assert_eq!(q.item(0).ray, test_ray(10));
    assert_eq!(q.item(1).ray, test_ray(11));
}

#[test]
fn pixel_states_start_dense_with_zero_radiance() {
    let states = init_pixel_states(4, 2);
    assert_eq!(states.len(), 8);
    for (i, st) in states.iter().enumerate() {
        assert_eq!(st.pixel, UVec2 { x: i as u32 % 4, y: i as u32 / 4 });
        assert_eq!(st.radiance, zero4());
    }
}

#[test]
fn scatter_updates_targeted_pixels_only() {
    let mut states = init_pixel_states(4, 1);
    let mut queue: WorkQueue<MaterialEvalWorkItem> = WorkQueue::new(2, fill_eval_item());
    let mut item = fill_eval_item();
    item.pixel_idx = 2;
    queue.push(item);
    item.pixel_idx = 0;
    queue.push(item);
    let radiance = vec![Vec4Bits { x: 21, y: 0, z: 0, w: 0 }, Vec4Bits { x: 40, y: 0, z: 0, w: 0 }];
    update_state(&queue, &radiance, &mut states);
    assert_eq!(states[2].radiance, radiance[0]);
    assert_eq!(states[0].radiance, radiance[1]);
    // Untargeted pixels keep their initial radiance, coordinates stay put.
    assert_eq!(states[1].radiance, zero4());
    assert_eq!(states[3].radiance, zero4());
    for (i, st) in states.iter().enumerate() {
        assert_eq!(st.pixel, UVec2 { x: i as u32, y: 0 });
    }
}

#[test]
fn zero_occupancy_dispatches_do_no_work() {
    // An empty input queue is valid: the dispatch is zero sized and no
    // stage writes anything.
    let rays: WorkQueue<RayWorkItem> = WorkQueue::new(4, fill_ray_item());
    let outcomes: Vec<TraceResult> = Vec::new();
    let instances: Vec<Instance> = Vec::new();
    let mut out: WorkQueue<MaterialEvalWorkItem> = WorkQueue::new(4, fill_eval_item());
    intersect_closest(&rays, &outcomes, &instances, &mut out);
    assert_eq!(out.len(), 0);

    let mut states = init_pixel_states(2, 2);
    let radiance: Vec<Vec4Bits> = Vec::new();
    update_state(&out, &radiance, &mut states);
    for st in &states {
        assert_eq!(st.radiance, zero4());
    }
}

#[test]
fn film_update_writes_each_pixel_state_at_its_coordinate() {
    let mut states = init_pixel_states(2, 2);
    let mut queue: WorkQueue<MaterialEvalWorkItem> = WorkQueue::new(4, fill_eval_item());
    for p in 0..4u32 {
        let mut item = fill_eval_item();
        item.pixel_idx = p;
        queue.push(item);
    }
    let radiance: Vec<Vec4Bits> =
        (0..4).map(|p| Vec4Bits { x: 100 + p, y: 0, z: 0, w: 0 }).collect();
    update_state(&queue, &radiance, &mut states);
    let mut img = vec![zero4(); 4];
    put_film(&states, 2, &mut img);
    for p in 0..4usize {
        assert_eq!(img[p], Vec4Bits { x: 100 + p as u32, y: 0, z: 0, w: 0 });
    }
}
