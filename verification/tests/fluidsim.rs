use fluidsim::curve::fourth_root;
use fluidsim::curve::health_curve;
use fluidsim::frame::normalized_of;
use fluidsim::frame::FrameDriver;
use fluidsim::frame::FramePhase;
use fluidsim::grid::extract_heights;
use fluidsim::grid::QueryPosition;
use fluidsim::grid::ScalarGrid;
use fluidsim::growth::should_spawn_based_on_distance;
use fluidsim::growth::update_player_height;
use fluidsim::growth::Plant;
use fluidsim::growth::PlantGrid;
use fluidsim::pipeline::extract_binding_slot;
use fluidsim::pipeline::extract_workgroup_counts;
use fluidsim::pipeline::sim_binding_slot;
use fluidsim::pipeline::sim_workgroup_counts;
use fluidsim::pipeline::DispatchKind;
use fluidsim::pipeline::ExtractBinding;
use fluidsim::pipeline::SimBinding;
use fluidsim::pipeline::ExtractionState;
use fluidsim::pipeline::SimulationState;
use fluidsim::query::build_query_plan;
use fluidsim::query::padded_points;
use fluidsim::query::query_buffer_bytes;
use fluidsim::query::result_buffer_bytes;
use fluidsim::query::grid_point_of;
use fluidsim::roles::HeightRoles;
use fluidsim::staging::MapState;
use fluidsim::EXTRACT_BUFFER_SIZE;
use fluidsim::OCCUPANCY_CELLS;

/// Convert a boundary float height (world units) into the library's
/// fixed-point micro-units, as the application does: non-finite floats
/// carry no value.
fn height_of_f32(h: f32) -> Option<i64> {
    if h.is_finite() {
        Some((h as f64 * 1_000_000.0) as i64)
    } else {
        None
    }
}

fn full_offsets() -> Vec<(i64, i64)> {
    vec![(16_000_000, 16_000_000); OCCUPANCY_CELLS as usize]
}

fn full_draws(v: i64) -> Vec<i64> {
    vec![v; OCCUPANCY_CELLS as usize]
}

/// Offsets that put the candidate point of cell (3, 3) two cell-space
/// units left and up of the world centre, inside the spawn radius of a
/// player standing at the centre; every other cell's point stays out of
/// reach.
fn near_offsets() -> Vec<(i64, i64)> {
    vec![(30_000_000, 30_000_000); OCCUPANCY_CELLS as usize]
}

#[test]
fn simulation_states_move_forward() {
    let mut s = SimulationState::Loading;
    s.advance(false, false);
    assert!(matches!(s, SimulationState::Loading));
    s.advance(false, true);
    assert!(matches!(s, SimulationState::Loading));
    s.advance(true, false);
    assert!(matches!(s, SimulationState::Init));
    s.advance(true, false);
    assert!(matches!(s, SimulationState::Init));
    s.advance(true, true);
    assert!(matches!(s, SimulationState::Update));
    s.advance(false, false);
    assert!(matches!(s, SimulationState::Update));
}

#[test]
fn simulation_dispatch_follows_state() {
    assert!(matches!(SimulationState::Loading.dispatch(), DispatchKind::NoPass));
    assert!(matches!(SimulationState::Init.dispatch(), DispatchKind::InitPass));
    assert!(matches!(SimulationState::Update.dispatch(), DispatchKind::UpdatePass));
}

#[test]
fn extraction_states_move_forward() {
    let mut s = ExtractionState::Loading;
    assert!(!s.dispatches());
    s.advance(false);
    assert!(matches!(s, ExtractionState::Loading));
    s.advance(true);
    assert!(matches!(s, ExtractionState::Update));
    s.advance(false);
    assert!(matches!(s, ExtractionState::Update));
    assert!(s.dispatches());
}

#[test]
fn roles_swap_alternates_and_never_collides() {
    let mut r = HeightRoles::new();
    assert_eq!(r.read_index, 0);
    assert_eq!(r.write_index(), 1);
    let written_first = r.write_index();
    r.swap();
    assert_eq!(r.read_index, written_first);
    assert_eq!(r.write_index(), 0);
    assert_ne!(r.read_index, r.write_index());
    r.swap();
    assert_eq!(r.read_index, 0);
    assert_ne!(r.read_index, r.write_index());
}

#[test]
fn extraction_results_align_with_queries() {
    let side: usize = 4;
    let mut water = ScalarGrid::new_fill(side, 0);
    let mut terrain = ScalarGrid::new_fill(side, 0);
    for x in 0..4u32 {
        for y in 0..4u32 {
            water.set(x, y, (10 * x + y) as i64);
            terrain.set(x, y, (100 * x + y) as i64);
        }
    }
    let queries = vec![
        QueryPosition { x: 0, y: 0 },
        QueryPosition { x: 3, y: 1 },
        QueryPosition { x: 1, y: 2 },
        QueryPosition { x: 3, y: 3 },
    ];
    let (w, t) = extract_heights(&water, &terrain, &queries);
    assert!(w.len() >= queries.len());
    assert_eq!(w.len(), 4);
    assert_eq!(t.len(), 4);
    assert_eq!(w, vec![0, 31, 12, 33]);
    assert_eq!(t, vec![0, 301, 102, 303]);
}

#[test]
fn query_plan_reserves_slot_zero_for_player() {
    let grid = PlantGrid::new();
    let offsets = full_offsets();
    let draws = full_draws(1_000_000);
    let plan = build_query_plan(&grid, 0, 0, &offsets, &draws);
    assert_eq!(plan.points[0].x, grid_point_of(0));
    assert_eq!(plan.points[0].y, grid_point_of(0));
    assert_eq!(plan.occupant_cells.len(), 0);
}

#[test]
fn candidates_come_only_from_cells_near_the_player() {
    let grid = PlantGrid::new();
    let offsets = near_offsets();
    let draws = full_draws(0);
    let plan = build_query_plan(&grid, 0, 0, &offsets, &draws);
    assert!(plan.points.len() <= EXTRACT_BUFFER_SIZE as usize);
    assert_eq!(
        plan.points.len(),
        1 + plan.occupant_cells.len() + plan.candidate_cells.len()
    );
    assert!(plan.occupant_cells.len() + plan.candidate_cells.len() <= OCCUPANCY_CELLS as usize);
    assert_eq!(plan.candidate_cells, vec![(3, 3)]);
    assert_eq!(plan.points.len(), 2);
}

#[test]
fn fully_occupied_grid_queries_every_occupant() {
    let mut grid = PlantGrid::new();
    for cx in 0..8usize {
        for cy in 0..8usize {
            let p = Plant::seed(cx, cy, 0, 0, 0);
            grid.set_cell(cx, cy, p);
        }
    }
    let offsets = full_offsets();
    let draws = full_draws(0);
    let plan = build_query_plan(&grid, 0, 0, &offsets, &draws);
    assert_eq!(plan.occupant_cells.len(), OCCUPANCY_CELLS as usize);
    assert_eq!(plan.candidate_cells.len(), 0);
    assert_eq!(plan.points.len(), EXTRACT_BUFFER_SIZE as usize);
}

#[test]
fn outlier_heights_leave_player_position_unchanged() {
    let before: i64 = 3_000_000;
    // A non-finite extracted height carries no value over the boundary.
    let nan = height_of_f32(f32::NAN);
    assert_eq!(nan, None);
    assert_eq!(update_player_height(before, nan, Some(0)), before);
    assert_eq!(update_player_height(before, Some(0), nan), before);
    // A height of 15.0 exceeds the 10-unit magnitude bound.
    let big = height_of_f32(15.0);
    assert_eq!(big, Some(15_000_000));
    assert_eq!(update_player_height(before, big, Some(0)), before);
    assert_eq!(update_player_height(before, Some(0), big), before);
}

#[test]
fn acceptable_heights_move_player_with_clearance() {
    let before: i64 = 3_000_000;
    let after = update_player_height(before, Some(600_000), Some(250_000));
    assert_eq!(after, 600_000 + 250_000 + 133_700);
}

#[test]
fn health_curve_peak_value() {
    // water 0.6 gives curve input 5 * 0.6 = 3.0, exactly the peak:
    // 1 / (1 + 0)^1.25 - 0.1 = 0.9.
    let water: i64 = 600_000;
    let h = health_curve(5 * water);
    assert_eq!(h, 900_000);
}

#[test]
fn health_curve_far_from_peak_is_negative() {
    // water 3.0 gives input 15.0, far past the peak; the curve falls
    // under the offset and the result is negative.
    let h = health_curve(15_000_000);
    assert!(h < 0);
    assert!(h >= -100_000);
}

#[test]
fn fourth_root_exact_values() {
    assert_eq!(fourth_root(0), 0);
    assert_eq!(fourth_root(1), 1);
    assert_eq!(fourth_root(15), 1);
    assert_eq!(fourth_root(16), 2);
    assert_eq!(fourth_root(1_000_000_000_000_000_000_000_000), 1_000_000);
    assert_eq!(fourth_root(u128::MAX), (1u64 << 32) - 1);
}

#[test]
fn maturity_latches_and_hidden_is_permanent() {
    let mut p = Plant::seed(2, 3, 0, 0, 0);
    assert!(!p.is_no_longer_baby);
    assert!(p.health < 0);
    // Water at the curve's peak drives health to 0.9: the occupant
    // matures.
    p.grow(600_000, 42);
    assert_eq!(p.health, 900_000);
    assert!(p.is_no_longer_baby);
    assert!(!p.hidden);
    assert_eq!(p.y, 42);
    // Water far from the peak drives health below zero: the mature
    // occupant is hidden for good and stays mature.
    p.grow(3_000_000, 43);
    assert!(p.health <= 0);
    assert!(p.is_no_longer_baby);
    assert!(p.hidden);
    // Healthy water again: still hidden, still mature.
    p.grow(600_000, 44);
    assert!(p.health > 0);
    assert!(p.is_no_longer_baby);
    assert!(p.hidden);
}

#[test]
fn visual_scale_follows_health_with_clamp() {
    let mut p = Plant::seed(0, 0, 0, 0, 0);
    p.grow(600_000, 0);
    // health 0.9 clamps to the largest visual scale 0.05.
    assert_eq!(p.scale, 50_000);
    p.grow(3_000_000, 0);
    // negative health clamps to zero.
    assert_eq!(p.scale, 0);
}

#[test]
fn spawn_test_rejects_outside_radius() {
    // candidate 0.4 world units away, radius 0.2 (cell space: 20 vs 10).
    assert!(!should_spawn_based_on_distance(0, 0, 20_000_000, 0, 10_000_000, 0));
}

#[test]
fn spawn_test_certain_at_player_and_never_at_full_draw() {
    // distance zero, draw zero: probability 1, spawns.
    assert!(should_spawn_based_on_distance(0, 0, 0, 0, 10_000_000, 0));
    // draw of a full unit never spawns, whatever the distance.
    assert!(!should_spawn_based_on_distance(0, 0, 0, 0, 10_000_000, 1_000_000));
    // halfway out with a draw under half spawns; over half does not.
    assert!(should_spawn_based_on_distance(0, 0, 5_000_000, 0, 10_000_000, 499_999));
    assert!(!should_spawn_based_on_distance(0, 0, 5_000_000, 0, 10_000_000, 500_000));
}

#[test]
fn grid_point_mapping() {
    // the world centre probes the grid centre.
    assert_eq!(grid_point_of(0), 128);
    // the left world edge probes column zero.
    assert_eq!(grid_point_of(-125_000_000), 0);
    // beyond the right edge clamps to the last column.
    assert_eq!(grid_point_of(130_000_000), 255);
    // one cell-space unit is 1/50 world units: half a world unit maps 25.6
    // columns right of the centre, truncated.
    assert_eq!(grid_point_of(25_000_000), 153);
}

#[test]
fn normalized_player_position() {
    assert_eq!(normalized_of(0), 500_000);
    assert_eq!(normalized_of(-125_000_000), 0);
    assert_eq!(normalized_of(125_000_000), 1_000_000);
    assert_eq!(normalized_of(-300_000_000), 0);
    assert_eq!(normalized_of(300_000_000), 1_000_000);
}

#[test]
fn frame_protocol_runs_and_staging_pairs_map_with_unmap() {
    let mut driver = FrameDriver::new(3_000_000);
    let mut grid = PlantGrid::new();
    assert!(matches!(driver.staging.state, MapState::Mapped));
    for _frame in 0..3 {
        driver.begin_frame(true, true, true);
        assert!(matches!(driver.staging.state, MapState::Unmapped));
        let offsets = full_offsets();
        let draws = full_draws(1_000_000);
        let (uniforms, plan, actions) = driver.set_queries(&grid, 0, 0, false, &offsets, &draws);
        assert_ne!(actions.read_index, actions.write_index);
        assert_eq!(uniforms.player_x, 500_000);
        assert_eq!(uniforms.click, 0);
        driver.record_copy();
        assert!(matches!(driver.staging.state, MapState::CopyQueued));
        driver.record_map_request();
        assert!(matches!(driver.staging.state, MapState::MapRequested));
        driver.record_wait();
        assert!(matches!(driver.staging.state, MapState::Mapped));
        let n = plan.points.len();
        let water = vec![Some(600_000i64); n];
        let terrain = vec![Some(250_000i64); n];
        driver.consume_results(&mut grid, &plan, &water, &terrain);
        assert!(matches!(driver.staging.state, MapState::Mapped));
        assert!(matches!(driver.phase, FramePhase::Idle));
    }
    assert_eq!(driver.player_y, 600_000 + 250_000 + 133_700);
}

#[test]
fn consume_grows_occupants_and_seeds_candidates() {
    let mut driver = FrameDriver::new(0);
    let mut grid = PlantGrid::new();
    let seeded = Plant::seed(4, 4, 1_000_000, -2_000_000, 0);
    grid.set_cell(4, 4, seeded);

    driver.begin_frame(true, true, true);
    let offsets = near_offsets();
    // draw zero: the in-radius empty cell becomes a candidate.
    let draws = full_draws(0);
    let (_uniforms, plan, _actions) = driver.set_queries(&grid, 0, 0, true, &offsets, &draws);
    assert_eq!(plan.occupant_cells.len(), 1);
    assert_eq!(plan.occupant_cells[0], (4, 4));
    assert!(!plan.candidate_cells.is_empty());
    driver.record_copy();
    driver.record_map_request();
    driver.record_wait();

    let n = plan.points.len();
    // water 0.6 everywhere: above the germination threshold, and at the
    // curve's peak for the occupant.
    let water = vec![Some(600_000i64); n];
    let terrain = vec![Some(77i64); n];
    driver.consume_results(&mut grid, &plan, &water, &terrain);

    let grown = grid.cell(4, 4).unwrap();
    assert_eq!(grown.health, 900_000);
    assert!(grown.is_no_longer_baby);
    assert_eq!(grown.y, 77);
    assert_eq!(grown.pos_x, 1_000_000);

    let (cx, cy) = plan.candidate_cells[0];
    let sprout = grid.cell(cx, cy).unwrap();
    assert_eq!(sprout.health, -1337);
    assert!(!sprout.is_no_longer_baby);
    assert_eq!(sprout.scale, 0);
    assert_eq!(sprout.y, 77);
}

#[test]
fn consume_without_germination_leaves_candidates_empty() {
    let mut driver = FrameDriver::new(0);
    let mut grid = PlantGrid::new();
    driver.begin_frame(true, true, true);
    let offsets = near_offsets();
    let draws = full_draws(0);
    let (_uniforms, plan, _actions) = driver.set_queries(&grid, 0, 0, false, &offsets, &draws);
    assert!(!plan.candidate_cells.is_empty());
    driver.record_copy();
    driver.record_map_request();
    driver.record_wait();
    let n = plan.points.len();
    // water at zero: under the germination threshold.
    let water = vec![Some(0i64); n];
    let terrain = vec![Some(0i64); n];
    driver.consume_results(&mut grid, &plan, &water, &terrain);
    for cx in 0..8usize {
        for cy in 0..8usize {
            assert!(grid.cell(cx, cy).is_none());
        }
    }
}

#[test]
fn outlier_occupant_slot_skips_the_update() {
    let mut driver = FrameDriver::new(0);
    let mut grid = PlantGrid::new();
    let seeded = Plant::seed(4, 4, 0, 0, 5);
    grid.set_cell(4, 4, seeded);
    driver.begin_frame(true, true, true);
    let offsets = full_offsets();
    let draws = full_draws(1_000_000);
    let (_uniforms, plan, _actions) = driver.set_queries(&grid, 0, 0, false, &offsets, &draws);
    assert_eq!(plan.occupant_cells.len(), 1);
    driver.record_copy();
    driver.record_map_request();
    driver.record_wait();
    let n = plan.points.len();
    // the occupant's water sample is missing (a NaN at the boundary).
    let mut water: Vec<Option<i64>> = vec![Some(0i64); n];
    water[1] = height_of_f32(f32::NAN);
    let terrain = vec![Some(0i64); n];
    driver.consume_results(&mut grid, &plan, &water, &terrain);
    let after = grid.cell(4, 4).unwrap();
    assert_eq!(after, seeded);
}

#[test]
fn binding_slots_and_workgroups_match_the_kernels() {
    assert_eq!(sim_binding_slot(SimBinding::HeightRead), 0);
    assert_eq!(sim_binding_slot(SimBinding::HeightWrite), 1);
    assert_eq!(sim_binding_slot(SimBinding::Velocity), 2);
    assert_eq!(sim_binding_slot(SimBinding::Terrain), 3);
    assert_eq!(sim_binding_slot(SimBinding::Uniforms), 4);

    assert_eq!(extract_binding_slot(ExtractBinding::HeightRead), 0);
    assert_eq!(extract_binding_slot(ExtractBinding::Terrain), 3);
    assert_eq!(extract_binding_slot(ExtractBinding::Positions), 5);
    assert_eq!(extract_binding_slot(ExtractBinding::WaterOut), 6);
    assert_eq!(extract_binding_slot(ExtractBinding::TerrainOut), 7);

    assert_eq!(sim_workgroup_counts(), (32, 32, 1));
    assert_eq!(extract_workgroup_counts(), (32, 1, 1));
}

#[test]
fn player_height_limit_is_strict() {
    // a combined height of exactly -10.0 is rejected; one micro-unit
    // inside the bound is accepted.
    assert_eq!(update_player_height(7, Some(-9_000_000), Some(-1_000_000)), 7);
    assert_eq!(
        update_player_height(7, Some(-9_000_000), Some(-999_999)),
        -9_999_999 + 133_700
    );
}

#[test]
fn padding_fills_the_buffer_with_the_player_probe() {
    let grid = PlantGrid::new();
    let offsets = near_offsets();
    let draws = full_draws(0);
    let plan = build_query_plan(&grid, 0, 0, &offsets, &draws);
    let padded = padded_points(&plan);
    assert_eq!(padded.len(), EXTRACT_BUFFER_SIZE as usize);
    for (i, p) in padded.iter().enumerate() {
        if i < plan.points.len() {
            assert_eq!(*p, plan.points[i]);
        } else {
            assert_eq!(*p, plan.points[0]);
        }
    }
}

#[test]
fn device_buffer_sizes_cover_the_capacity() {
    assert_eq!(query_buffer_bytes(), 8 * 65);
    assert_eq!(result_buffer_bytes(), 4 * 65);
}
