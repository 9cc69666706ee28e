use wine_lounge::geometry::Rect;
use wine_lounge::player::Player;
use wine_lounge::sprite::{PlayerDirection, PlayerFootstep, Sprite};

#[test]
fn spawn_state() {
    let p = Player::init();
    assert_eq!(p.position.x, 380);
    assert_eq!(p.position.y, 250);
    assert_eq!(p.direction, PlayerDirection::Down);
    assert_eq!(p.footstep, 0);
    assert_eq!(p.empty_glasses, 0);
    assert_eq!(p.filled_glasses, 0);
    assert_eq!(p.points, 0);
}

#[test]
fn picking_adds_two_points() {
    let mut p = Player::init();
    assert!(p.can_pick_glass());
    p.pick_glass();
    assert_eq!(p.empty_glasses, 1);
    assert_eq!(p.filled_glasses, 0);
    assert_eq!(p.points, 2);
}

#[test]
fn filling_adds_three_points() {
    let mut p = Player::init();
    p.pick_glass();
    assert!(p.can_fill_glass());
    p.fill_glass();
    assert_eq!(p.empty_glasses, 0);
    assert_eq!(p.filled_glasses, 1);
    assert_eq!(p.points, 5);
}

#[test]
fn drinking_adds_five_points() {
    let mut p = Player::init();
    p.pick_glass();
    p.fill_glass();
    assert!(p.can_drink_glass());
    p.drink_glass();
    assert_eq!(p.empty_glasses, 0);
    assert_eq!(p.filled_glasses, 0);
    assert_eq!(p.points, 10);
}

#[test]
fn inventory_capacity_is_five() {
    let mut p = Player::init();
    for _ in 0..5 {
        assert!(p.can_pick_glass());
        p.pick_glass();
    }
    assert!(!p.can_pick_glass());
    assert_eq!(p.empty_glasses + p.filled_glasses, 5);
    // filling keeps the total, so a full inventory can still fill
    p.fill_glass();
    assert_eq!(p.empty_glasses + p.filled_glasses, 5);
    assert!(!p.can_pick_glass());
}

#[test]
fn cannot_fill_or_drink_empty_handed() {
    let p = Player::init();
    assert!(!p.can_fill_glass());
    assert!(!p.can_drink_glass());
}

#[test]
fn moves_shift_by_fifteen_and_turn() {
    let mut p = Player::init();
    p.move_right();
    assert_eq!(p.position.x, 395);
    assert_eq!(p.direction, PlayerDirection::Right);
    p.move_left();
    assert_eq!(p.position.x, 380);
    assert_eq!(p.direction, PlayerDirection::Left);
    p.move_up();
    assert_eq!(p.position.y, 235);
    assert_eq!(p.direction, PlayerDirection::Up);
    p.move_down();
    assert_eq!(p.position.y, 250);
    assert_eq!(p.direction, PlayerDirection::Down);
}

#[test]
fn footsteps_alternate_and_stop_resets() {
    let mut p = Player::init();
    assert_eq!(p.footstep, 0);
    p.move_down();
    assert_eq!(p.footstep, 1);
    p.move_down();
    assert_eq!(p.footstep, 2);
    p.move_down();
    assert_eq!(p.footstep, 1);
    p.stop();
    assert_eq!(p.footstep, 0);
    assert_eq!(p.sprite(), Sprite::Player(PlayerDirection::Down, PlayerFootstep::Rest));
    p.move_down();
    assert_eq!(p.sprite(), Sprite::Player(PlayerDirection::Down, PlayerFootstep::Left));
    p.move_down();
    assert_eq!(p.sprite(), Sprite::Player(PlayerDirection::Down, PlayerFootstep::Right));
}

#[test]
fn facing_only_turns() {
    let mut p = Player::init();
    p.face_left();
    assert_eq!(p.direction, PlayerDirection::Left);
    assert_eq!(p.position.x, 380);
    assert_eq!(p.position.y, 250);
    p.face_up();
    assert_eq!(p.direction, PlayerDirection::Up);
    p.face_right();
    assert_eq!(p.direction, PlayerDirection::Right);
    p.face_down();
    assert_eq!(p.direction, PlayerDirection::Down);
}

#[test]
fn bounding_box_and_center() {
    let p = Player::init();
    let r = p.bounding_rect();
    assert_eq!((r.x, r.y, r.width, r.height), (380, 250, 40, 115));
    let c = p.center();
    assert_eq!((c.x, c.y), (400, 307));
}

#[test]
fn within_rect_is_strict_interior() {
    let mut p = Player::init();
    let field = Rect::new(0, 50, 800, 550);
    assert!(p.within_rect(&field));
    // top edge: y must stay above 50
    p.position.y = 50;
    assert!(!p.within_rect(&field));
    p.position.y = 51;
    assert!(p.within_rect(&field));
    // bottom: the full 115 pixels must fit above 600
    p.position.y = 485;
    assert!(!p.within_rect(&field));
    p.position.y = 484;
    assert!(p.within_rect(&field));
    // left and right edges
    p.position.y = 250;
    p.position.x = 0;
    assert!(!p.within_rect(&field));
    p.position.x = 1;
    assert!(p.within_rect(&field));
    p.position.x = 760;
    assert!(!p.within_rect(&field));
    p.position.x = 759;
    assert!(p.within_rect(&field));
}

#[test]
fn sprite_sizes() {
    assert_eq!(Sprite::GlassEmpty.size(), (20, 25));
    assert_eq!(Sprite::Lounge.size(), (150, 95));
    assert_eq!(Sprite::Player(PlayerDirection::Up, PlayerFootstep::Left).size(), (40, 115));
    assert_eq!(Sprite::Stone.size(), (25, 25));
}

#[test]
fn sprite_atlas_rects() {
    let r = Sprite::HiddenBox.rect();
    assert_eq!((r.x, r.y, r.width, r.height), (5, 620, 50, 50));
    let r = Sprite::Player(PlayerDirection::Left, PlayerFootstep::Right).rect();
    assert_eq!((r.x, r.y, r.width, r.height), (115, 255, 40, 115));
    let r = Sprite::Player(PlayerDirection::Up, PlayerFootstep::Rest).rect();
    assert_eq!((r.x, r.y, r.width, r.height), (5, 380, 40, 115));
}
