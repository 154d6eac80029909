use fly_scene::overlay::{debug_overlay, format_readout, setup_debug_overlay};
use fly_scene::player::{Location, Player, Rotation};
use fly_scene::scalar::Scalar;
use fly_scene::scene::Rgba;

fn scalar(x: f32) -> Scalar {
    Scalar::from_bits(x.to_bits())
}

fn print(s: Scalar) -> String {
    format!("{}", f32::from_bits(s.to_bits()))
}

fn strings(parts: [&str; 7]) -> [String; 7] {
    parts.map(|p| p.to_string())
}

#[test]
fn the_label_greets() {
    let label = setup_debug_overlay();
    assert_eq!(label.text, "welcome");
    assert_eq!(label.font, "FiraSans-Bold.ttf");
    assert_eq!(label.font_size, 40);
    assert_eq!(label.color, Rgba { red: 5, green: 5, blue: 10, alpha: 10 });
    assert_eq!(label.top, 5);
    assert_eq!(label.left, 5);
}

#[test]
fn the_readout_has_two_lines() {
    let text = format_readout(&strings(["1", "2", "3", "4", "5", "6", "7"]));
    assert_eq!(text, "location = (1, 2, 3)\nrotation = (4, 5, 6, 7)");
}

#[test]
fn the_readout_takes_the_numbers_as_they_come() {
    let text = format_readout(&strings(["", "-0", "NaN", "inf", "1e-7", "a, b", ")"]));
    assert_eq!(text, "location = (, -0, NaN)\nrotation = (inf, 1e-7, a, b, ))");
}

#[test]
fn the_readout_shows_position_then_quaternion() {
    let player = Player {
        location: Location { x: scalar(1.0), y: scalar(2.5), z: scalar(-3.0) },
        rotation: Rotation { x: scalar(0.25), y: scalar(0.5), z: scalar(0.75), w: scalar(-1.0) },
    };
    let shown = player.shown();
    assert_eq!(
        shown,
        [
            scalar(1.0),
            scalar(2.5),
            scalar(-3.0),
            scalar(0.25),
            scalar(0.5),
            scalar(0.75),
            scalar(-1.0)
        ]
    );
    let text = format_readout(&shown.map(print));
    assert_eq!(text, "location = (1, 2.5, -3)\nrotation = (0.25, 0.5, 0.75, -1)");
    assert_eq!(
        text,
        format!(
            "location = ({}, {}, {})\nrotation = ({}, {}, {}, {})",
            1.0f32, 2.5f32, -3.0f32, 0.25f32, 0.5f32, 0.75f32, -1.0f32
        )
    );
}

#[test]
fn the_readout_of_the_first_record() {
    let text = format_readout(&Player::default().shown().map(print));
    assert_eq!(text, "location = (0, 0, 0)\nrotation = (0, 0, 0, 1)");
}

#[test]
fn the_label_is_due_when_the_timer_has_run_out() {
    let player = Player {
        location: Location { x: scalar(0.0), y: scalar(2.5), z: scalar(0.0) },
        rotation: Rotation { x: scalar(0.0), y: scalar(0.0), z: scalar(0.0), w: scalar(1.0) },
    };
    let numbers = debug_overlay(true, &player);
    assert_eq!(numbers, Some(player.shown()));
    assert_eq!(
        format_readout(&numbers.unwrap().map(print)),
        "location = (0, 2.5, 0)\nrotation = (0, 0, 0, 1)"
    );
}

#[test]
fn the_label_is_left_alone_between_two_refreshes() {
    assert_eq!(debug_overlay(false, &Player::default()), None);
    let player = Player {
        location: Location { x: scalar(0.0), y: scalar(2.5), z: scalar(0.0) },
        rotation: Rotation { x: scalar(0.0), y: scalar(0.0), z: scalar(0.0), w: scalar(1.0) },
    };
    assert_eq!(debug_overlay(false, &player), None);
}
