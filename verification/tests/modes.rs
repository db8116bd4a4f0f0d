use nuthatch::mode::{select_mode, Mode, PREFERRED_BIT};
use nuthatch::placement::next_output_x;

fn mode(width: u16, height: u16, refresh: i32, type_bits: u32) -> Mode {
    Mode { width, height, refresh, type_bits }
}

#[test]
fn preferred_flag_is_bit_eight() {
    assert_eq!(PREFERRED_BIT, 8);
    assert!(mode(1920, 1080, 60_000, 8).is_preferred());
    assert!(mode(1920, 1080, 60_000, 0x48).is_preferred());
    assert!(mode(1920, 1080, 60_000, 0xffff_ffff).is_preferred());
    assert!(!mode(1920, 1080, 60_000, 0).is_preferred());
    assert!(!mode(1920, 1080, 60_000, 0x40).is_preferred());
    assert!(!mode(1920, 1080, 60_000, 0x77).is_preferred());
}

#[test]
fn empty_mode_list_selects_nothing() {
    assert_eq!(select_mode(&vec![]), None);
}

#[test]
fn without_preferred_mode_the_first_is_selected() {
    let modes = vec![
        mode(1920, 1080, 60_000, 0x40),
        mode(1280, 720, 60_000, 0x40),
        mode(640, 480, 75_000, 0),
    ];
    assert_eq!(select_mode(&modes), Some(0));
}

#[test]
fn preferred_mode_is_selected_wherever_it_stands() {
    let modes = vec![
        mode(640, 480, 60_000, 0x40),
        mode(1280, 720, 60_000, 0x40),
        mode(2560, 1440, 144_000, 0x48),
        mode(1920, 1080, 60_000, 0x40),
    ];
    assert_eq!(select_mode(&modes), Some(2));
    assert_eq!(select_mode(&vec![mode(800, 600, 60_000, 8)]), Some(0));
}

#[test]
fn first_of_several_preferred_modes_is_selected() {
    let modes = vec![
        mode(640, 480, 60_000, 0),
        mode(1280, 720, 60_000, 8),
        mode(1920, 1080, 60_000, 8),
    ];
    assert_eq!(select_mode(&modes), Some(1));
}

#[test]
fn selection_survives_reordering_that_keeps_the_preferred_position() {
    let a = mode(640, 480, 60_000, 0x40);
    let b = mode(1280, 720, 60_000, 0x40);
    let p = mode(1920, 1080, 60_000, 0x48);
    let c = mode(800, 600, 56_000, 0);
    let original = vec![a, b, p, c];
    let orders = vec![
        vec![b, a, p, c],
        vec![c, b, p, a],
        vec![a, c, p, b],
        vec![c, a, p, b],
        vec![b, c, p, a],
    ];
    let chosen = select_mode(&original).unwrap();
    assert_eq!(chosen, 2);
    for order in orders.iter() {
        let again = select_mode(order).unwrap();
        assert_eq!(again, chosen);
        assert_eq!(order[again], original[chosen]);
    }
}

#[test]
fn third_output_is_placed_after_the_first_two() {
    assert_eq!(next_output_x(&vec![1920, 1280]), Some(3200));
}

#[test]
fn first_output_is_placed_at_the_origin() {
    assert_eq!(next_output_x(&vec![]), Some(0));
}

#[test]
fn placement_sums_all_widths_in_order() {
    assert_eq!(next_output_x(&vec![1920]), Some(1920));
    assert_eq!(next_output_x(&vec![1920, 1280, 3840, 800]), Some(7840));
    assert_eq!(next_output_x(&vec![0, 0, 5]), Some(5));
}

#[test]
fn placement_reports_a_total_that_does_not_fit() {
    assert_eq!(next_output_x(&vec![i32::MAX, 1]), None);
    assert_eq!(next_output_x(&vec![i32::MAX, 1, -1]), None);
    assert_eq!(next_output_x(&vec![i32::MAX]), Some(i32::MAX));
    assert_eq!(next_output_x(&vec![i32::MIN, -1]), None);
}
