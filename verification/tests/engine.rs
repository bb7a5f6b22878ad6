use d3engine::rng::Lcg;
use d3engine::smoke::config::MAX_SMOKE_PARTICLES;
use d3engine::smoke::emitter::{spawn_budget, SMOKE_SEED};
use d3engine::water::river_mesh::RiverMesh;
use d3engine::weather::config::WeatherType;
use d3engine::weather::emitter::{scatter_draws, ScatterDraw, WEATHER_SEED};
use d3engine::vulkan_logic::config::cull::BackfaceCullConfig;
use d3engine::vulkan_logic::memory::gpu_buffers::{plan_upload, UploadPlan};
use d3engine::vulkan_logic::memory::vertex_setup::{VertexAttribute, VertexBinding, VertexLayout, VertexSetup};
use d3engine::vulkan_logic::vk_core::context::{queue_family_list, QueueFamilyError, QueueFamilyInfo, QueueFamilySearch};
use d3engine::vulkan_logic::vk_core::swapchain::manager::{
    clamped_extent, image_count, is_minimized, uses_concurrent_sharing, Extent, SurfaceLimits,
};
use d3engine::vulkan_logic::renderers::master::data_prep::{
    first_shadow_caster, plan_draw_calls, take_capped, DrawRange, MeshSize,
};
use d3engine::vulkan_logic::renderers::master::draw::{main_pass_plan, MainPassStep};
use d3engine::vulkan_logic::renderers::fire_renderer::{fire_upload, FireUpload, MAX_FIRE_PARTICLES};
use d3engine::vulkan_logic::renderers::skybox_renderer::{MAX_SKY_CRESCENTS, MAX_SKY_DISCS};
use d3engine::vulkan_logic::renderers::master::sync_submit::{
    acquire_action, present_action, resized_after_acquire, resized_after_present, AcquireAction, AcquireOutcome, PresentAction, PresentOutcome,
};

#[test]
fn lcg_new_keeps_seed() {
    assert_eq!(Lcg::new(7).state, 7);
}

#[test]
fn lcg_stream_from_smoke_seed() {
    let mut rng = Lcg::new(SMOKE_SEED);
    assert_eq!(rng.next_u32(), 1083814273);
    assert_eq!(rng.next_u32(), 378494188);
    assert_eq!(rng.next_u32(), 2479403867);
    assert_eq!(rng.state, 2479403867);
}

#[test]
fn lcg_wraps_around() {
    let mut rng = Lcg::new(u32::MAX);
    let expected = ((u32::MAX as u64 * 1664525 + 1013904223) % (1u64 << 32)) as u32;
    assert_eq!(rng.next_u32(), expected);
}

#[test]
fn lcg_same_seed_same_stream() {
    let mut a = Lcg::new(99);
    let mut b = Lcg::new(99);
    for _ in 0..10 {
        assert_eq!(a.next_u32(), b.next_u32());
    }
}

#[test]
fn weather_scatter_takes_four_draws_per_particle() {
    let mut rng = Lcg::new(WEATHER_SEED);
    let draws = scatter_draws(&mut rng, 2);
    assert_eq!(
        draws,
        vec![
            ScatterDraw { x: 87628868, y: 71072467, z: 2332836374, phase: 2726892157 },
            ScatterDraw { x: 3908547000, y: 483019191, z: 2129828778, phase: 2355140353 },
        ]
    );
    assert_eq!(rng.state, 2355140353);
}

#[test]
fn weather_scatter_continues_stream() {
    let mut one = Lcg::new(WEATHER_SEED);
    let all = scatter_draws(&mut one, 3);
    let mut two = Lcg::new(WEATHER_SEED);
    let first = scatter_draws(&mut two, 1);
    let rest = scatter_draws(&mut two, 2);
    assert_eq!(first[0], all[0]);
    assert_eq!(rest[0], all[1]);
    assert_eq!(rest[1], all[2]);
    assert_eq!(one.state, two.state);
}

#[test]
fn weather_scatter_zero_particles_leaves_rng() {
    let mut rng = Lcg::new(5);
    assert!(scatter_draws(&mut rng, 0).is_empty());
    assert_eq!(rng.state, 5);
}

#[test]
fn weather_type_activity() {
    assert!(!WeatherType::Clear.is_active());
    assert!(WeatherType::Rain.is_active());
    assert!(WeatherType::Snow.is_active());
}

#[test]
fn smoke_spawn_budget() {
    assert_eq!(spawn_budget(0, 3), 3);
    assert_eq!(spawn_budget(498, 5), 2);
    assert_eq!(spawn_budget(MAX_SMOKE_PARTICLES - 1, 1), 1);
    assert_eq!(spawn_budget(MAX_SMOKE_PARTICLES, 4), 0);
    assert_eq!(spawn_budget(MAX_SMOKE_PARTICLES + 3, 4), 0);
    assert_eq!(spawn_budget(10, 0), 0);
}

#[test]
fn smoke_budget_matches_guarded_spawns() {
    for live in [0usize, 250, 495, 499, 500, 503] {
        for intervals in 0..12usize {
            let mut count = live;
            for _ in 0..intervals {
                if count < MAX_SMOKE_PARTICLES {
                    count += 1;
                }
            }
            assert_eq!(count, live + spawn_budget(live, intervals));
            if live <= MAX_SMOKE_PARTICLES {
                assert!(count <= MAX_SMOKE_PARTICLES);
            }
        }
    }
}

#[test]
fn main_pass_order_playing() {
    assert_eq!(
        main_pass_plan(true, 3, 1),
        vec![
            MainPassStep::Sky, MainPassStep::Clouds, MainPassStep::Meshes, MainPassStep::Rivers,
            MainPassStep::Fire, MainPassStep::Smoke, MainPassStep::Weather, MainPassStep::Ui,
        ]
    );
    assert_eq!(
        main_pass_plan(true, 0, 0),
        vec![
            MainPassStep::Sky, MainPassStep::Clouds, MainPassStep::Rivers,
            MainPassStep::Fire, MainPassStep::Smoke, MainPassStep::Weather,
        ]
    );
}

#[test]
fn main_pass_order_menu() {
    assert_eq!(main_pass_plan(false, 3, 2), vec![MainPassStep::Ui]);
    assert!(main_pass_plan(false, 3, 0).is_empty());
}

#[test]
fn fire_upload_cases() {
    assert_eq!(fire_upload(0), None);
    assert_eq!(fire_upload(7), Some(FireUpload { copied: 7, instance_count: 7 }));
    assert_eq!(fire_upload(MAX_FIRE_PARTICLES + 20), Some(FireUpload { copied: MAX_FIRE_PARTICLES, instance_count: 520 }));
}

#[test]
fn sky_caps_drop_extra_discs() {
    let discs = vec![1, 2, 3, 4, 5, 6, 7];
    assert_eq!(take_capped(&discs, MAX_SKY_DISCS), vec![1, 2, 3, 4, 5]);
    assert_eq!(take_capped(&discs, MAX_SKY_CRESCENTS).len(), 5);
}

#[test]
fn river_single_cell() {
    assert_eq!(RiverMesh::generate_indices(1, 1), vec![0, 2, 1, 1, 2, 3]);
    assert_eq!(RiverMesh::grid_points(1, 1), vec![(0, 0), (0, 1), (1, 0), (1, 1)]);
}

#[test]
fn river_two_rows_two_columns() {
    let idx = RiverMesh::generate_indices(2, 2);
    assert_eq!(
        idx,
        vec![0, 3, 1, 1, 3, 4, 1, 4, 2, 2, 4, 5, 3, 6, 4, 4, 6, 7, 4, 7, 5, 5, 7, 8]
    );
    let pts = RiverMesh::grid_points(2, 2);
    assert_eq!(pts.len(), 9);
    assert!(idx.iter().all(|&i| (i as usize) < pts.len()));
    assert_eq!(pts[5], (1, 2));
}

#[test]
fn river_counts_match_resolution() {
    let idx = RiverMesh::generate_indices(7, 3);
    assert_eq!(idx.len(), 6 * 7 * 3);
    assert_eq!(RiverMesh::grid_points(7, 3).len(), 8 * 4);
    assert!(idx.iter().all(|&i| i < 32));
}

#[test]
fn river_degenerate_resolution() {
    assert!(RiverMesh::generate_indices(0, 4).is_empty());
    assert!(RiverMesh::generate_indices(4, 0).is_empty());
    assert_eq!(RiverMesh::grid_points(0, 0), vec![(0, 0)]);
}

#[test]
fn cull_default_disables_culling_clockwise() {
    let c = BackfaceCullConfig::default();
    assert!(c.mode_none);
    assert!(c.mode_cw);
    assert_eq!(c.get_cull_mode(), ash::vk::CullModeFlags::NONE.as_raw());
    assert_eq!(c.get_front_face(), ash::vk::FrontFace::CLOCKWISE.as_raw());
}

#[test]
fn cull_back_counter_clockwise() {
    let c = BackfaceCullConfig { mode_none: false, mode_cw: false };
    assert_eq!(c.get_cull_mode(), 2);
    assert_eq!(c.get_cull_mode(), ash::vk::CullModeFlags::BACK.as_raw());
    assert_eq!(c.get_front_face(), 0);
    assert_eq!(c.get_front_face(), ash::vk::FrontFace::COUNTER_CLOCKWISE.as_raw());
}

#[test]
fn vertex_setup_describes_vertex() {
    let layout = VertexLayout { stride: 48, position: 0, color: 12, normal: 28, uv: 40 };
    assert_eq!(
        VertexSetup::get_binding_description(&layout),
        VertexBinding { binding: 0, stride: 48, input_rate: 0 }
    );
    let attrs = VertexSetup::get_attribute_descriptions(&layout);
    assert_eq!(attrs[0], VertexAttribute { location: 0, binding: 0, format: 106, offset: 0 });
    assert_eq!(attrs[1], VertexAttribute { location: 1, binding: 0, format: 109, offset: 12 });
    assert_eq!(attrs[2], VertexAttribute { location: 2, binding: 0, format: 106, offset: 28 });
    assert_eq!(attrs[3], VertexAttribute { location: 3, binding: 0, format: 103, offset: 40 });
    assert_eq!(attrs[3].format, ash::vk::Format::R32G32_SFLOAT.as_raw());
}

#[test]
fn upload_plan_cases() {
    assert_eq!(plan_upload(100, 0), UploadPlan::Skip);
    assert_eq!(plan_upload(0, 0), UploadPlan::Skip);
    assert_eq!(plan_upload(100, 50), UploadPlan::Write);
    assert_eq!(plan_upload(100, 100), UploadPlan::Write);
    assert_eq!(plan_upload(100, 101), UploadPlan::Grow { new_capacity: 128 });
    assert_eq!(plan_upload(64, 65), UploadPlan::Grow { new_capacity: 128 });
    assert_eq!(plan_upload(0, 1), UploadPlan::Grow { new_capacity: 1 });
    assert_eq!(plan_upload(3, 4), UploadPlan::Grow { new_capacity: 4 });
}

#[test]
fn upload_grown_capacity_fits_and_grows() {
    for size in 1..300usize {
        match plan_upload(size - 1, size) {
            UploadPlan::Grow { new_capacity } => {
                assert!(new_capacity >= size);
                assert!(new_capacity.is_power_of_two());
                assert!(new_capacity / 2 < size);
            }
            other => panic!("unexpected {:?}", other),
        }
    }
}

#[test]
fn swapchain_image_count() {
    let mut l = SurfaceLimits { min_image_count: 2, max_image_count: 3, min_width: 1, min_height: 1, max_width: 4096, max_height: 4096 };
    assert_eq!(image_count(&l), 3);
    l.max_image_count = 0;
    assert_eq!(image_count(&l), 3);
    l.min_image_count = 3;
    l.max_image_count = 3;
    assert_eq!(image_count(&l), 3);
    l.min_image_count = 1;
    l.max_image_count = 8;
    assert_eq!(image_count(&l), 2);
}

#[test]
fn swapchain_extent_and_minimize() {
    let l = SurfaceLimits { min_image_count: 2, max_image_count: 0, min_width: 100, min_height: 50, max_width: 1920, max_height: 1080 };
    assert_eq!(clamped_extent(800, 600, &l), Extent { width: 800, height: 600 });
    assert_eq!(clamped_extent(10, 5000, &l), Extent { width: 100, height: 1080 });
    assert_eq!(clamped_extent(4000, 20, &l), Extent { width: 1920, height: 50 });
    assert!(is_minimized(0, 600));
    assert!(is_minimized(800, 0));
    assert!(!is_minimized(1, 1));
    assert!(uses_concurrent_sharing(0, 1));
    assert!(!uses_concurrent_sharing(2, 2));
}

fn info(graphics: bool, present: bool) -> QueueFamilyInfo {
    QueueFamilyInfo { graphics, present }
}

#[test]
fn queue_search_same_family() {
    let mut s = QueueFamilySearch::new();
    assert!(!s.observe(0, info(false, false)));
    assert!(s.observe(1, info(true, true)));
    assert_eq!(s.finish(), Ok((1, 1)));
}

#[test]
fn queue_search_split_families() {
    let mut s = QueueFamilySearch::new();
    assert!(!s.observe(0, info(true, false)));
    assert!(!s.observe(1, info(true, false)));
    assert!(s.observe(2, info(false, true)));
    assert_eq!(s.finish(), Ok((1, 2)));
}

#[test]
fn queue_search_errors() {
    let mut s = QueueFamilySearch::new();
    assert_eq!(s.finish(), Err(QueueFamilyError::NoGraphicsQueue));
    s.observe(0, info(false, true));
    assert_eq!(s.finish(), Err(QueueFamilyError::NoGraphicsQueue));
    let mut t = QueueFamilySearch::new();
    t.observe(0, info(true, false));
    assert_eq!(t.finish(), Err(QueueFamilyError::NoPresentQueue));
}

#[test]
fn queue_family_list_dedups() {
    assert_eq!(queue_family_list(0, 0), vec![0]);
    assert_eq!(queue_family_list(0, 2), vec![0, 2]);
}

#[test]
fn draw_plan_offsets() {
    let meshes = vec![
        MeshSize { vertex_count: 4, index_count: 6 },
        MeshSize { vertex_count: 3, index_count: 3 },
        MeshSize { vertex_count: 10, index_count: 12 },
    ];
    assert_eq!(
        plan_draw_calls(&meshes),
        vec![
            DrawRange { index_start: 0, index_count: 6, vertex_offset: 0 },
            DrawRange { index_start: 6, index_count: 3, vertex_offset: 4 },
            DrawRange { index_start: 9, index_count: 12, vertex_offset: 7 },
        ]
    );
    assert!(plan_draw_calls(&Vec::new()).is_empty());
}

#[test]
fn shadow_caster_is_first_admitted() {
    assert_eq!(first_shadow_caster(&vec![false, true, true], 4), Some(1));
    assert_eq!(first_shadow_caster(&vec![false, false, true], 2), None);
    assert_eq!(first_shadow_caster(&vec![false, false], 4), None);
    assert_eq!(first_shadow_caster(&vec![true], 0), None);
}

#[test]
fn take_capped_prefix() {
    assert_eq!(take_capped(&vec![1, 2, 3, 4, 5, 6, 7], 5), vec![1, 2, 3, 4, 5]);
    assert_eq!(take_capped(&vec![1, 2], 5), vec![1, 2]);
    assert!(take_capped(&vec![1, 2], 0).is_empty());
}

#[test]
fn acquire_decisions() {
    assert_eq!(acquire_action(false, AcquireOutcome::Acquired { index: 2, suboptimal: false }), AcquireAction::Render { index: 2 });
    assert_eq!(acquire_action(true, AcquireOutcome::Acquired { index: 2, suboptimal: false }), AcquireAction::Recreate);
    assert_eq!(acquire_action(false, AcquireOutcome::Acquired { index: 2, suboptimal: true }), AcquireAction::Recreate);
    assert_eq!(acquire_action(false, AcquireOutcome::OutOfDate), AcquireAction::Recreate);
    assert_eq!(acquire_action(true, AcquireOutcome::Failed), AcquireAction::Fail);
}

#[test]
fn present_decisions() {
    assert_eq!(present_action(false, PresentOutcome::Presented { suboptimal: false }), PresentAction::Done);
    assert_eq!(present_action(true, PresentOutcome::Presented { suboptimal: false }), PresentAction::Recreate);
    assert_eq!(present_action(false, PresentOutcome::Presented { suboptimal: true }), PresentAction::Recreate);
    assert_eq!(present_action(false, PresentOutcome::OutOfDate), PresentAction::Recreate);
    assert_eq!(present_action(false, PresentOutcome::Failed), PresentAction::Fail);
}

#[test]
fn upload_plan_large_power_of_two() {
    assert_eq!(plan_upload(0, 1 << 20), UploadPlan::Grow { new_capacity: 1 << 20 });
    assert_eq!(plan_upload(1 << 20, (1 << 20) + 1), UploadPlan::Grow { new_capacity: 1 << 21 });
}

#[test]
fn resize_flag_cleared_by_rebuild() {
    let a = acquire_action(true, AcquireOutcome::Acquired { index: 0, suboptimal: false });
    assert_eq!(a, AcquireAction::Recreate);
    assert!(!resized_after_acquire(true, a));
    assert!(resized_after_acquire(true, AcquireAction::Fail));
    assert!(!resized_after_acquire(false, AcquireAction::Render { index: 1 }));
    let p = present_action(true, PresentOutcome::Presented { suboptimal: false });
    assert_eq!(p, PresentAction::Recreate);
    assert!(!resized_after_present(true, p));
    assert!(resized_after_present(true, PresentAction::Fail));
    assert!(!resized_after_present(false, PresentAction::Done));
}
