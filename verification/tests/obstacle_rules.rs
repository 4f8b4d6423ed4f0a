use flappy_dragon::dragon::Dragon;
use flappy_dragon::obstacle::Obstacle;
use flappy_dragon::GAP_Y_MAX;
use flappy_dragon::GAP_Y_MIN;
use flappy_dragon::SCREEN_WIDTH;

#[test]
fn gap_size_is_twenty_at_score_zero() {
    let o = Obstacle::new(SCREEN_WIDTH, 0);
    assert_eq!(o.size, 20);
    assert_eq!(o.x, SCREEN_WIDTH);
}

#[test]
fn gap_size_shrinks_with_score() {
    assert_eq!(Obstacle::new(0, 5).size, 15);
    assert_eq!(Obstacle::new(0, 17).size, 3);
}

#[test]
fn gap_size_floors_at_two() {
    assert_eq!(Obstacle::new(0, 18).size, 2);
    assert_eq!(Obstacle::new(0, 25).size, 2);
    assert_eq!(Obstacle::new(0, 1000).size, 2);
}

#[test]
fn gap_center_stays_in_band_across_creations() {
    for score in 0..100 {
        let o = Obstacle::new(score, score);
        assert!(GAP_Y_MIN <= o.gap_y && o.gap_y < GAP_Y_MAX);
    }
}

#[test]
fn collision_above_gap() {
    let o = Obstacle { x: 7, gap_y: 25, size: 10 };
    let d = Dragon { x: 7, y: 18, velocity_tenths: 0 };
    assert!(o.hit_obstacle(&d));
}

#[test]
fn no_collision_inside_gap() {
    let o = Obstacle { x: 7, gap_y: 25, size: 10 };
    let d = Dragon { x: 7, y: 22, velocity_tenths: 0 };
    assert!(!o.hit_obstacle(&d));
    let at_top_edge = Dragon { x: 7, y: 20, velocity_tenths: 0 };
    assert!(!o.hit_obstacle(&at_top_edge));
    let at_bottom_edge = Dragon { x: 7, y: 30, velocity_tenths: 0 };
    assert!(!o.hit_obstacle(&at_bottom_edge));
}

#[test]
fn collision_below_gap() {
    let o = Obstacle { x: 7, gap_y: 25, size: 10 };
    let d = Dragon { x: 7, y: 31, velocity_tenths: 0 };
    assert!(o.hit_obstacle(&d));
}

#[test]
fn no_collision_on_horizontal_mismatch() {
    let o = Obstacle { x: 7, gap_y: 25, size: 10 };
    for y in 0..60 {
        let d = Dragon { x: 8, y, velocity_tenths: 0 };
        assert!(!o.hit_obstacle(&d));
    }
}

#[test]
fn gap_bounds_split_the_wall() {
    let o = Obstacle { x: 0, gap_y: 25, size: 10 };
    assert_eq!(o.gap_bounds(), (20, 30));
    let narrow = Obstacle { x: 0, gap_y: 12, size: 2 };
    assert_eq!(narrow.gap_bounds(), (11, 13));
}
