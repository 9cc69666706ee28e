use wine_lounge::rng::{jitter, revealed};
use wine_lounge::world::{
    BoxArea, BoxAreaContent, BoxAreaPosition, Collision, Command, Direction, World,
};

#[test]
fn fresh_world_layout() {
    let w = World::init_at(7);
    assert_eq!(w.right_top_box_area.content, BoxAreaContent::EmptyGlass);
    assert_eq!(w.right_bottom_box_area.content, BoxAreaContent::HiddenBox);
    assert_eq!(w.left_bottom_box_area.content, BoxAreaContent::Nothing);
    assert_eq!(w.left_top_box_area.content, BoxAreaContent::Nothing);
    assert_eq!(w.right_top_box_area.position, BoxAreaPosition::RightTop);
    assert_eq!(w.right_top_box_area.last_update, 7);
    assert_eq!(w.stops.len(), 5);
    assert_eq!((w.stops[0].x, w.stops[0].y), (380, 60));
}

#[test]
fn init_stamps_current_time() {
    let w = World::init();
    // the clock hands out real Unix timestamps, not placeholders
    assert!(w.right_top_box_area.last_update > 1_000_000_000);
}

#[test]
fn five_steps_down_from_spawn() {
    let mut w = World::init_at(0);
    let spawn_y = w.player.position.y;
    let mut footsteps = Vec::new();
    for _ in 0..5 {
        w.move_player(Direction::Down);
        footsteps.push(w.player.footstep);
    }
    assert_eq!(w.player.position.y, spawn_y + 75);
    assert_eq!(w.player.position.x, 380);
    assert_eq!(w.player.direction, wine_lounge::sprite::PlayerDirection::Down);
    // left / right / left / right / left
    assert_eq!(footsteps, vec![1, 2, 1, 2, 1]);
}

#[test]
fn move_at_field_edge_is_reverted() {
    let mut w = World::init_at(0);
    w.player.position.y = 60;
    w.move_player(Direction::Up);
    // 45 would leave the playable field, so the step is undone
    assert_eq!(w.player.position.y, 60);
    assert_eq!(w.player.position.x, 380);
    // but the player turns toward the wall
    assert_eq!(w.player.direction, wine_lounge::sprite::PlayerDirection::Up);
}

#[test]
fn move_into_stop_is_reverted() {
    let mut w = World::init_at(0);
    w.player.position.x = 575;
    w.player.position.y = 400;
    w.move_player(Direction::Right);
    // 590 would put the stone at (590, 450) inside the player's box
    assert_eq!(w.player.position.x, 575);
    assert_eq!(w.player.position.y, 400);
    assert_eq!(w.player.direction, wine_lounge::sprite::PlayerDirection::Right);
}

#[test]
fn collision_classification_priority() {
    let mut w = World::init_at(0);
    // spawn center (400, 307) already lies in the lounge
    assert_eq!(w.has_player_collision(), Collision::Lounge);
    w.player.position.x = 700;
    w.player.position.y = 60;
    assert_eq!(w.has_player_collision(), Collision::BoxArea(BoxAreaPosition::RightTop));
    w.player.position.x = 580;
    w.player.position.y = 400;
    assert_eq!(w.has_player_collision(), Collision::Stopper);
    w.player.position.x = 100;
    w.player.position.y = 100;
    assert_eq!(w.has_player_collision(), Collision::Clear);
}

#[test]
fn refresh_spawns_hidden_box_after_ten_idle_seconds() {
    let now = 1_000;
    let mut a = BoxArea::new(BoxAreaPosition::LeftTop, BoxAreaContent::Nothing, now - 11);
    a.refresh(now, 0);
    assert_eq!(a.content, BoxAreaContent::HiddenBox);
    assert_eq!(a.last_update, now);
}

#[test]
fn refresh_leaves_young_empty_zone_alone() {
    let now = 1_000;
    let mut a = BoxArea::new(BoxAreaPosition::LeftTop, BoxAreaContent::Nothing, now - 10);
    a.refresh(now, 0);
    assert_eq!(a.content, BoxAreaContent::Nothing);
    assert_eq!(a.last_update, now - 10);
}

#[test]
fn refresh_decays_content_after_thirty_seconds_plus_jitter() {
    // seed 7 stands for a jitter of 10 seconds
    assert_eq!(jitter(7), 10);
    let mut a = BoxArea::new(BoxAreaPosition::LeftTop, BoxAreaContent::EmptyGlass, 0);
    a.refresh(40, 7);
    assert_eq!(a.content, BoxAreaContent::EmptyGlass);
    assert_eq!(a.last_update, 0);
    a.refresh(41, 7);
    assert_eq!(a.content, BoxAreaContent::Nothing);
    assert_eq!(a.last_update, 41);
}

#[test]
fn jitter_stays_between_three_and_twelve() {
    assert_eq!(jitter(0), 3);
    assert_eq!(jitter(9), 12);
    assert_eq!(jitter(123), 6);
    for s in 0..100u64 {
        let j = jitter(s);
        assert!((3..=12).contains(&j));
    }
}

#[test]
fn reveal_draw_mapping() {
    assert_eq!(revealed(0), BoxAreaContent::Nothing);
    assert_eq!(revealed(1), BoxAreaContent::EmptyGlass);
    assert_eq!(revealed(2), BoxAreaContent::FilledBottle);
    assert_eq!(revealed(3), BoxAreaContent::FilledBottle);
    assert_eq!(revealed(4), BoxAreaContent::EmptyGlass);
    assert_eq!(revealed(6), BoxAreaContent::EmptyGlass);
}

#[test]
fn full_inventory_locks_glass_zone_in_place() {
    let mut w = World::init_at(50);
    w.player.empty_glasses = 5;
    w.player.position.x = 700;
    w.player.position.y = 60;
    assert_eq!(w.right_top_box_area.content, BoxAreaContent::EmptyGlass);
    w.handle_boxarea_collisions_at(0, 99);
    // the zone is confirmed as a visible glass, nothing is picked
    assert_eq!(w.right_top_box_area.content, BoxAreaContent::EmptyGlass);
    assert_eq!(w.right_top_box_area.last_update, 99);
    assert_eq!(w.player.empty_glasses, 5);
    assert_eq!(w.player.filled_glasses, 0);
    assert_eq!(w.player.points, 0);
}

#[test]
fn touching_a_glass_zone_picks_the_glass() {
    let mut w = World::init_at(50);
    w.player.position.x = 700;
    w.player.position.y = 60;
    w.handle_boxarea_collisions_at(0, 99);
    assert_eq!(w.right_top_box_area.content, BoxAreaContent::Nothing);
    assert_eq!(w.player.empty_glasses, 1);
    assert_eq!(w.player.points, 2);
}

#[test]
fn hidden_box_resolves_by_the_draw() {
    // a draw standing for an empty glass: the box is picked away
    let mut w = World::init_at(50);
    w.player.position.x = 700;
    w.player.position.y = 480;
    assert_eq!(w.right_bottom_box_area.content, BoxAreaContent::HiddenBox);
    w.handle_boxarea_collisions_at(1, 60);
    assert_eq!(w.right_bottom_box_area.content, BoxAreaContent::Nothing);
    assert_eq!(w.player.empty_glasses, 1);
    assert_eq!(w.player.points, 2);

    // a draw standing for a filled bottle, with no glass to fill: locked in
    let mut w = World::init_at(50);
    w.player.position.x = 700;
    w.player.position.y = 480;
    w.handle_boxarea_collisions_at(2, 60);
    assert_eq!(w.right_bottom_box_area.content, BoxAreaContent::FilledBottle);
    assert_eq!(w.player.points, 0);

    // a draw standing for nothing: the zone is left untouched
    let mut w = World::init_at(50);
    w.player.position.x = 700;
    w.player.position.y = 480;
    w.handle_boxarea_collisions_at(0, 60);
    assert_eq!(w.right_bottom_box_area.content, BoxAreaContent::HiddenBox);
    assert_eq!(w.right_bottom_box_area.last_update, 50);
}

#[test]
fn filled_bottle_fills_a_glass() {
    let mut w = World::init_at(50);
    w.right_top_box_area.content = BoxAreaContent::FilledBottle;
    w.player.empty_glasses = 2;
    w.player.position.x = 700;
    w.player.position.y = 60;
    w.handle_boxarea_collisions_at(0, 75);
    assert_eq!(w.right_top_box_area.content, BoxAreaContent::EmptyBottle);
    assert_eq!(w.player.empty_glasses, 1);
    assert_eq!(w.player.filled_glasses, 1);
    assert_eq!(w.player.points, 3);
}

#[test]
fn lounge_drinks_a_filled_glass() {
    let mut w = World::init_at(0);
    w.player.filled_glasses = 1;
    // spawn center already lies in the lounge
    w.handle_lounge_collisions();
    assert_eq!(w.player.filled_glasses, 0);
    assert_eq!(w.player.points, 5);
    // nothing left to drink: the next tick changes nothing
    w.handle_lounge_collisions();
    assert_eq!(w.player.points, 5);
}

#[test]
fn handle_collisions_runs_lounge_and_box_area() {
    let mut w = World::init_at(0);
    w.player.filled_glasses = 1;
    w.handle_collisions();
    assert_eq!(w.player.filled_glasses, 0);
    assert_eq!(w.player.points, 5);
}

#[test]
fn execute_command_moves_face_and_stop() {
    let mut w = World::init_at(0);
    let id = || "p".to_string();
    w.execute_command(Command::MovePlayer(id(), Direction::Left));
    assert_eq!(w.player.position.x, 365);
    assert_eq!(w.player.direction, wine_lounge::sprite::PlayerDirection::Left);
    assert_eq!(w.player.footstep, 1);
    w.execute_command(Command::FacePlayer(id(), Direction::Up));
    assert_eq!(w.player.direction, wine_lounge::sprite::PlayerDirection::Up);
    assert_eq!(w.player.position.x, 365);
    w.execute_command(Command::StopPlayer(id()));
    assert_eq!(w.player.footstep, 0);
    w.execute_command(Command::SpawnPlayer(id(), 1, 2));
    w.execute_command(Command::RemovePlayer(id()));
    assert_eq!(w.player.position.x, 365);
}

#[test]
fn execute_command_updates_box_area() {
    let mut w = World::init_at(0);
    w.execute_command_at(
        &Command::UpdateBoxArea(BoxAreaPosition::LeftBottom, BoxAreaContent::FilledBottle),
        44,
    );
    assert_eq!(w.left_bottom_box_area.content, BoxAreaContent::FilledBottle);
    assert_eq!(w.left_bottom_box_area.last_update, 44);
    // the other zones keep their stamps
    assert_eq!(w.left_top_box_area.last_update, 0);
}

#[test]
fn update_box_areas_with_stale_stamps() {
    let mut w = World::init_at(0);
    w.update_box_areas();
    // against a real clock every zone is decades stale: empty zones grow a
    // hidden box, filled ones decay
    assert_eq!(w.left_bottom_box_area.content, BoxAreaContent::HiddenBox);
    assert_eq!(w.left_top_box_area.content, BoxAreaContent::HiddenBox);
    assert_eq!(w.right_top_box_area.content, BoxAreaContent::Nothing);
    assert_eq!(w.right_bottom_box_area.content, BoxAreaContent::Nothing);
    assert!(w.left_top_box_area.last_update > 1_000_000_000);
    // the player is untouched
    assert_eq!(w.player.points, 0);
    assert_eq!(w.player.position.x, 380);
}

#[test]
fn get_player_hands_out_the_player() {
    let mut w = World::init_at(0);
    w.get_player("p".to_string()).pick_glass();
    assert_eq!(w.player.empty_glasses, 1);
    assert_eq!(w.player.points, 2);
}

#[test]
fn playable_rect_covers_the_area_below_the_bar() {
    let r = World::playable_rect();
    assert_eq!((r.x, r.y, r.width, r.height), (0, 50, 800, 550));
}
