use lantern::{Fire, Lantern};

const DARK: [(u8, u8, u8); 4] = [(0, 0, 0); 4];

#[test]
fn embers_first_ticks() {
    let mut fire = Fire::new();
    assert_eq!(fire.animate(), [(3, 1, 0), (3, 1, 0), (7, 3, 0), (7, 3, 0)]);
    assert_eq!(fire.animate(), [(3, 1, 0), (7, 3, 0), (7, 3, 0), (12, 5, 0)]);
    assert_eq!(fire.animate(), [(3, 1, 0), (12, 5, 0), (3, 1, 0), (7, 3, 0)]);
}

#[test]
fn embers_after_ten_and_forty_ticks() {
    let mut fire = Fire::new();
    let mut colors: [(u8, u8, u8); 4] = DARK;
    for _ in 0..10 {
        colors = fire.animate();
    }
    assert_eq!(colors, [(20, 8, 0), (3, 1, 0), (7, 3, 0), (28, 10, 0)]);
    for _ in 10..40 {
        colors = fire.animate();
    }
    assert_eq!(colors, [(3, 1, 0), (3, 1, 0), (30, 12, 0), (30, 12, 0)]);
}

#[test]
fn embers_stay_in_the_palette() {
    let palette: [(u8, u8, u8); 8] = [
        (3, 1, 0),
        (7, 3, 0),
        (12, 5, 0),
        (20, 8, 0),
        (28, 10, 0),
        (30, 12, 0),
        (32, 14, 0),
        (40, 16, 0),
    ];
    let mut fire = Fire::new();
    let mut before: [usize; 4] = [0; 4];
    for _ in 0..2000 {
        let colors = fire.animate();
        for segment in 0..4 {
            let level = palette.iter().position(|entry| *entry == colors[segment]);
            let level = level.expect("a palette colour");
            assert!(level.abs_diff(before[segment]) <= 1);
            before[segment] = level;
        }
    }
}

#[test]
fn lantern_starts_lit() {
    let mut lantern = Lantern::new();
    assert!(lantern.on());
    assert_eq!(lantern.animate(), [(3, 1, 0), (3, 1, 0), (7, 3, 0), (7, 3, 0)]);
}

#[test]
fn lantern_codes() {
    let mut lantern = Lantern::new();
    lantern.command(1);
    assert!(!lantern.on());
    lantern.command(5);
    assert!(!lantern.on());
    lantern.command(0);
    assert!(lantern.on());
    lantern.command(200);
    assert!(lantern.on());
}

#[test]
fn lantern_is_dark_and_still_while_out() {
    let mut lantern = Lantern::new();
    lantern.command(1);
    for _ in 0..5 {
        assert_eq!(lantern.animate(), DARK);
    }
    lantern.command(0);
    assert_eq!(lantern.animate(), [(3, 1, 0), (3, 1, 0), (7, 3, 0), (7, 3, 0)]);
    assert_eq!(lantern.animate(), [(3, 1, 0), (7, 3, 0), (7, 3, 0), (12, 5, 0)]);
}

#[test]
fn lantern_ignores_other_remotes() {
    let mut lantern = Lantern::new();
    assert!(!lantern.handle_remote(3, 1));
    assert!(lantern.on());
    assert!(lantern.handle_remote(7, 1));
    assert!(!lantern.on());
    assert!(lantern.handle_remote(7, 0));
    assert!(lantern.on());
}
