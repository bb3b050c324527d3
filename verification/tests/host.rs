use chipp::graphics::{
    game_pixel_origin, keypad_box_origin, register_box_origin, GAME_HEIGHT,
    GAME_PIXEL_SCALE_FACTOR, GAME_WIDTH, WINDOW_HEIGHT, WINDOW_WIDTH,
};
use chipp::util::{validate_args, ArgError};

#[test]
fn one_argument_is_the_path() {
    let args = vec!["chipp".to_string(), "roms/logo.ch8".to_string()];
    match validate_args(&args) {
        Ok(path) => assert_eq!(path, "roms/logo.ch8"),
        Err(_) => panic!("one argument is accepted"),
    }
}

#[test]
fn no_argument_is_refused() {
    let args = vec!["chipp".to_string()];
    assert!(validate_args(&args).is_err());
    assert!(validate_args(&vec![]).is_err());
}

#[test]
fn two_arguments_are_refused() {
    let args = vec!["chipp".to_string(), "a".to_string(), "b".to_string()];
    assert!(validate_args(&args).is_err());
}

#[test]
fn argument_error_names_the_usage() {
    assert_eq!(
        ArgError.message(),
        "Invalid arguments!, usage: chipp <path_to_rom>"
    );
}

#[test]
fn window_sizes() {
    assert_eq!(WINDOW_WIDTH, 1250);
    assert_eq!(WINDOW_HEIGHT, 500);
    assert_eq!(GAME_WIDTH, 640);
    assert_eq!(GAME_HEIGHT, 320);
    assert_eq!(GAME_PIXEL_SCALE_FACTOR, 10);
}

#[test]
fn game_pixels_are_centred() {
    assert_eq!(game_pixel_origin(0, 0), (305, 90));
    assert_eq!(game_pixel_origin(1, 2), (315, 110));
    assert_eq!(game_pixel_origin(63, 31), (935, 400));
}

#[test]
fn register_boxes_stand_in_rows_of_four() {
    assert_eq!(register_box_origin(0), (20, 225));
    assert_eq!(register_box_origin(3), (230, 225));
    assert_eq!(register_box_origin(4), (20, 295));
    assert_eq!(register_box_origin(5), (90, 295));
    assert_eq!(register_box_origin(15), (230, 435));
}

#[test]
fn keypad_boxes_stand_in_rows_of_four() {
    assert_eq!(keypad_box_origin(0), (970, 50));
    assert_eq!(keypad_box_origin(3), (1165, 50));
    assert_eq!(keypad_box_origin(7), (1165, 115));
    assert_eq!(keypad_box_origin(12), (970, 245));
    assert_eq!(keypad_box_origin(15), (1165, 245));
}

#[test]
fn free_running_machine_runs_in_bursts() {
    assert_eq!(chipp::clock::instructions_due(0, false, false, false), 0);
    assert_eq!(chipp::clock::instructions_due(9, false, false, false), 0);
    assert_eq!(chipp::clock::instructions_due(10, false, false, false), 11);
    assert_eq!(chipp::clock::instructions_due(250, false, false, true), 11);
}

#[test]
fn step_mode_runs_one_instruction_on_request() {
    assert_eq!(chipp::clock::instructions_due(0, true, false, true), 1);
    assert_eq!(chipp::clock::instructions_due(1000, true, false, true), 1);
    assert_eq!(chipp::clock::instructions_due(1000, true, false, false), 0);
}

#[test]
fn halted_machine_runs_nothing() {
    assert_eq!(chipp::clock::instructions_due(1000, false, true, false), 0);
    assert_eq!(chipp::clock::instructions_due(1000, true, true, true), 0);
}
