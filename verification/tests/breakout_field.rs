use paddle_games::breakout::arena::{
    arena_colliders, ball_spawn, bar_collider, bar_x_bounds, ColliderBox, ARENA_HEIGHT, ARENA_WIDTH,
    SUBUNITS, WALL_THICKNESS,
};
use paddle_games::breakout::ball::{update_speed, BALL_END_SPEED, BALL_START_SPEED};
use paddle_games::breakout::brick::{
    brick, brick_layout, BrokenBricks, BRICK_COLUMNS, BRICK_GAP, BRICK_HEIGHT, BRICK_ROWS,
};
use paddle_games::breakout::collision::{collision_response, first_contact, Bounce, ColliderType};
use paddle_games::breakout::input::{bar_input, BarKeys};

fn world(subunits: i32) -> f32 {
    subunits as f32 / SUBUNITS as f32
}

#[test]
fn wall_has_every_brick_once_in_spawn_order() {
    let bricks = brick_layout();
    assert_eq!(bricks.len(), 128);
    for (i, b) in bricks.iter().enumerate() {
        assert_eq!(b.row as usize, i / 16);
        assert_eq!(b.column as usize, i % 16);
        assert_eq!(*b, brick(b.row, b.column));
        assert_eq!(b.collider.collider_type, ColliderType::Brick);
    }
}

#[test]
fn corner_bricks() {
    let first = brick(0, 0);
    assert_eq!(first.collider.center_x, -14925);
    assert_eq!(first.collider.center_y, 15520);
    assert_eq!(first.collider.half_width, 915);
    assert_eq!(first.collider.half_height, 320);
    assert_eq!(first.color, 0);
    let last = brick(7, 15);
    assert_eq!(last.collider.center_x, 14925);
    assert_eq!(last.collider.center_y, 9920);
    assert_eq!(last.color, 3);
    assert_eq!(brick(1, 1).collider.center_x, -12935);
    assert_eq!(brick(1, 1).collider.center_y, 14720);
}

#[test]
fn brick_colors_come_in_bands_of_two_rows() {
    let colors: Vec<u32> = (0..BRICK_ROWS).map(|r| brick(r, 0).color).collect();
    assert_eq!(colors, vec![0, 0, 1, 1, 2, 2, 3, 3]);
}

#[test]
fn brick_positions_match_the_float_layout() {
    let width = (ARENA_WIDTH as f32 - BRICK_GAP as f32 * (BRICK_COLUMNS as f32 + 1.0)) / BRICK_COLUMNS as f32;
    let height = BRICK_HEIGHT as f32;
    let gap = BRICK_GAP as f32;
    let x_start = -(ARENA_WIDTH as f32 / 2.0) + gap + width / 2.0;
    let x_step = gap + width;
    let y_start = ARENA_HEIGHT as f32 / 2.0 - (gap + height / 2.0);
    let y_step = gap + height;
    for b in brick_layout() {
        assert_eq!(world(b.collider.center_x), x_start + x_step * b.column as f32);
        assert_eq!(world(b.collider.center_y), y_start - y_step * b.row as f32);
        assert_eq!(world(b.collider.half_width), width / 2.0);
        assert_eq!(world(b.collider.half_height), height / 2.0);
        let bands = BRICK_ROWS as f32 / 4.0;
        assert_eq!(b.color as usize, (b.row as f32 / bands).floor() as usize);
    }
}

#[test]
fn neighbouring_bricks_are_a_gap_apart() {
    let gap = BRICK_GAP * SUBUNITS;
    let a = brick(3, 4).collider;
    let b = brick(3, 5).collider;
    assert_eq!((b.center_x - b.half_width) - (a.center_x + a.half_width), gap);
    let c = brick(4, 4).collider;
    assert_eq!((a.center_y - a.half_height) - (c.center_y + c.half_height), gap);
}

#[test]
fn arena_walls_and_ceiling() {
    let boxes = arena_colliders();
    let s = SUBUNITS;
    assert_eq!(
        boxes,
        vec![
            ColliderBox { collider_type: ColliderType::Wall, center_x: 15760, center_y: 0, half_width: 240, half_height: 16000 },
            ColliderBox { collider_type: ColliderType::Wall, center_x: -15760, center_y: 0, half_width: 240, half_height: 16000 },
            ColliderBox { collider_type: ColliderType::Ceiling, center_x: 0, center_y: 15760, half_width: 16000, half_height: 240 },
        ]
    );
    assert_eq!(world(boxes[0].center_x), (ARENA_WIDTH as f32 - WALL_THICKNESS as f32) / 2.0);
    assert_eq!(boxes[0].center_x + boxes[0].half_width, ARENA_WIDTH * s / 2);
}

#[test]
fn bar_and_ball_start_positions() {
    let bar = bar_collider();
    assert_eq!(bar.collider_type, ColliderType::Bar);
    assert_eq!((bar.center_x, bar.center_y), (0, -12800));
    assert_eq!((bar.half_width, bar.half_height), (1600, 160));
    assert_eq!(world(bar.center_y), -(ARENA_HEIGHT as f32 / 2.0) + ARENA_HEIGHT as f32 / 10.0);
    assert_eq!(bar_x_bounds(), (-14400, 14400));
    assert_eq!(world(bar_x_bounds().1), (ARENA_WIDTH as f32 - 100.0) / 2.0);
    assert_eq!(ball_spawn(), (0, -9600));
    assert_eq!(world(ball_spawn().1), -(ARENA_HEIGHT as f32 / 2.0) + ARENA_HEIGHT as f32 / 5.0);
}

#[test]
fn ball_speed_grows_with_broken_bricks() {
    assert_eq!(BrokenBricks::new(), BrokenBricks(0));
    assert_eq!(update_speed(BrokenBricks(0)), 16000);
    assert_eq!(update_speed(BrokenBricks(1)), 16125);
    assert_eq!(update_speed(BrokenBricks(64)), 24000);
    assert_eq!(update_speed(BrokenBricks(128)), 32000);
    assert_eq!(update_speed(BrokenBricks(u32::MAX)), 16000 + 125 * u32::MAX as u64);
    for n in [0u32, 1, 5, 37, 64, 100, 127, 128] {
        let float = BALL_START_SPEED as f32
            + (n as f32 / (BRICK_COLUMNS * BRICK_ROWS) as f32) * (BALL_END_SPEED - BALL_START_SPEED) as f32;
        assert_eq!(update_speed(BrokenBricks(n)) as f32 / SUBUNITS as f32, float);
    }
}

#[test]
fn collision_responses() {
    let bar = collision_response(ColliderType::Bar, true);
    assert_eq!((bar.bounce, bar.despawn), (Bounce::OffBar, false));
    let wall = collision_response(ColliderType::Wall, false);
    assert_eq!((wall.bounce, wall.despawn), (Bounce::FlipX, false));
    let ceiling = collision_response(ColliderType::Ceiling, true);
    assert_eq!((ceiling.bounce, ceiling.despawn), (Bounce::FlipY, false));
    let side = collision_response(ColliderType::Brick, true);
    assert_eq!((side.bounce, side.despawn), (Bounce::FlipX, true));
    let top = collision_response(ColliderType::Brick, false);
    assert_eq!((top.bounce, top.despawn), (Bounce::FlipY, true));
}

#[test]
fn one_collision_per_frame() {
    assert_eq!(first_contact(&vec![]), None);
    assert_eq!(first_contact(&vec![false, false]), None);
    assert_eq!(first_contact(&vec![false, true, true]), Some(1));
    assert_eq!(first_contact(&vec![true, false, true]), Some(0));
}

#[test]
fn bar_direction_from_keys() {
    let k = |arrow_left, key_a, arrow_right, key_d| BarKeys { arrow_left, key_a, arrow_right, key_d };
    assert_eq!(bar_input(k(false, false, false, false)), 0);
    assert_eq!(bar_input(k(true, false, false, false)), -1);
    assert_eq!(bar_input(k(false, true, false, false)), -1);
    assert_eq!(bar_input(k(true, true, false, false)), -1);
    assert_eq!(bar_input(k(false, false, true, false)), 1);
    assert_eq!(bar_input(k(false, false, false, true)), 1);
    assert_eq!(bar_input(k(true, false, false, true)), 0);
    assert_eq!(bar_input(k(false, true, true, true)), 0);
}
