use bubbletea_rs::{
    charm_default_gradient, gradient_filled_segment, gradient_filled_segment_with_buffer,
};

#[test]
fn default_gradient_endpoints() {
    assert_eq!(
        charm_default_gradient(),
        ((0xFF, 0x7C, 0xCB), (0xFD, 0xFF, 0x8C))
    );
}

#[test]
fn empty_segment() {
    assert_eq!(gradient_filled_segment(0, '█'), "");
}

#[test]
fn single_cell_takes_end_colour() {
    assert_eq!(
        gradient_filled_segment(1, '█'),
        "\x1b[38;2;253;255;140m█\x1b[0m"
    );
}

#[test]
fn two_cells_span_the_gradient() {
    assert_eq!(
        gradient_filled_segment(2, '█'),
        "\x1b[38;2;255;124;203m█\x1b[0m\x1b[38;2;253;255;140m█\x1b[0m"
    );
}

#[test]
fn three_cells_round_halves_up() {
    // The middle cell sits at exactly half way: 189.5 rounds to 190, 171.5 to 172.
    assert_eq!(
        gradient_filled_segment(3, '#'),
        "\x1b[38;2;255;124;203m#\x1b[0m\x1b[38;2;254;190;172m#\x1b[0m\x1b[38;2;253;255;140m#\x1b[0m"
    );
}

#[test]
fn five_cells() {
    assert_eq!(
        gradient_filled_segment(5, '█'),
        "\x1b[38;2;255;124;203m█\x1b[0m\x1b[38;2;255;157;187m█\x1b[0m\x1b[38;2;254;190;172m█\x1b[0m\x1b[38;2;254;222;156m█\x1b[0m\x1b[38;2;253;255;140m█\x1b[0m"
    );
}

#[test]
fn buffer_version_matches_and_discards_old_contents() {
    let mut buffer = String::from("old contents");
    let out = gradient_filled_segment_with_buffer(5, '█', &mut buffer).to_string();
    assert_eq!(out, gradient_filled_segment(5, '█'));
    assert_eq!(buffer, out);
    let out = gradient_filled_segment_with_buffer(0, '█', &mut buffer).to_string();
    assert_eq!(out, "");
    assert_eq!(buffer, "");
}

#[test]
fn every_cell_has_one_colour_and_one_reset() {
    let s = gradient_filled_segment(40, '=');
    assert_eq!(s.matches("\x1b[38;2;").count(), 40);
    assert_eq!(s.matches("\x1b[0m").count(), 40);
    assert_eq!(s.matches('=').count(), 40);
    assert!(s.starts_with("\x1b[38;2;255;124;203m="));
    assert!(s.ends_with("\x1b[38;2;253;255;140m=\x1b[0m"));
}
