use wio_umwelt_monitor::draw::{Color, DrawCommand, Font};
use wio_umwelt_monitor::history::{SensorType, INVALID_DAT_NUM, WINDOW_WIDTH};
use wio_umwelt_monitor::viewer::{
    get_color, print_initializing, round_tenths, Coordinates, NumberPrintElement, Viewer,
    COORDINATE_LIMIT,
};

fn coordinates() -> Coordinates {
    Coordinates::new(10, 240, 230, 5, 55, 105, 155, 199, 40)
}

fn texts(commands: &[DrawCommand]) -> Vec<(String, i32, i32, Font, Color)> {
    commands
        .iter()
        .filter_map(|command| match command {
            DrawCommand::Text { text, x, y, font, color } => {
                Some((text.as_str().to_string(), *x, *y, *font, *color))
            }
            DrawCommand::Fill { .. } => None,
        })
        .collect()
}

fn fills(commands: &[DrawCommand]) -> Vec<(i32, i32, i32, i32, Color)> {
    commands
        .iter()
        .filter_map(|command| match command {
            DrawCommand::Fill { left, top, right, bottom, color } => {
                Some((*left, *top, *right, *bottom, *color))
            }
            DrawCommand::Text { .. } => None,
        })
        .collect()
}

#[test]
fn rounding_to_tenths() {
    assert_eq!(round_tenths(23_500), 235);
    assert_eq!(round_tenths(23_449), 234);
    assert_eq!(round_tenths(23_450), 235);
    assert_eq!(round_tenths(0), 0);
    assert_eq!(round_tenths(49), 0);
    assert_eq!(round_tenths(50), 1);
    assert_eq!(round_tenths(-50), 0);
    assert_eq!(round_tenths(-51), -1);
    assert_eq!(round_tenths(-149), -1);
    assert_eq!(round_tenths(-150), -1);
    assert_eq!(round_tenths(-151), -2);
    assert_eq!(round_tenths(i32::MAX), 21_474_836);
    assert_eq!(round_tenths(i32::MIN), -21_474_836);
}

#[test]
fn colours_of_the_quantities() {
    assert_eq!(get_color(SensorType::Temperature), Color::Magenta);
    assert_eq!(get_color(SensorType::Humidity), Color::Cyan);
    assert_eq!(get_color(SensorType::Co2Concentration), Color::Green);
    assert_eq!(get_color(SensorType::AtmPressure), Color::Custom { red: 0x1c, green: 0x28, blue: 0x1f });
}

#[test]
fn coordinates_are_checked_against_the_limit() {
    assert!(coordinates().is_valid());
    assert!(Coordinates::new(0, 0, COORDINATE_LIMIT, 0, 0, 0, 0, -COORDINATE_LIMIT, 0).is_valid());
    assert!(!Coordinates::new(0, 0, COORDINATE_LIMIT + 1, 0, 0, 0, 0, 0, 0).is_valid());
    assert!(!Coordinates::new(0, 0, 0, 0, 0, 0, 0, 0, i32::MIN).is_valid());
    assert!(!Coordinates::new(i32::MAX, 0, 0, 0, 0, 0, 0, 0, 0).is_valid());
}

#[test]
fn start_up_screen() {
    let commands = print_initializing(true);
    assert_eq!(fills(&commands), vec![(0, 0, 319, 239, Color::Black)]);
    assert_eq!(
        texts(&commands),
        vec![("Initializing...".to_string(), 70, 210, Font::Font12x16, Color::Green)]
    );
    assert!(matches!(commands[0], DrawCommand::Fill { .. }));
    let commands = print_initializing(false);
    assert_eq!(fills(&commands), vec![(0, 0, 319, 239, Color::Black)]);
    assert_eq!(
        texts(&commands),
        vec![("initialization failure".to_string(), 30, 210, Font::Font12x16, Color::Red)]
    );
}

#[test]
fn captions_and_units() {
    let viewer = Viewer::new(coordinates());
    let commands = viewer.print_labels();
    assert_eq!(commands.len(), 9);
    let white = Color::White;
    assert_eq!(
        texts(&commands),
        vec![
            ("Temp.".to_string(), 10, 5, Font::Font12x16, white),
            (".".to_string(), 235, -20, Font::Font24x32, white),
            ("C".to_string(), 248, 5, Font::Font24x32, white),
            ("Humid.".to_string(), 10, 55, Font::Font12x16, white),
            ("%".to_string(), 240, 55, Font::Font24x32, white),
            ("CO2".to_string(), 10, 105, Font::Font12x16, white),
            ("ppm".to_string(), 240, 105, Font::Font24x32, white),
            ("Atm.".to_string(), 10, 155, Font::Font12x16, white),
            ("hPa".to_string(), 240, 155, Font::Font24x32, white),
        ]
    );
}

#[test]
fn number_is_painted_right_aligned() {
    let mut number = NumberPrintElement::new(230, 5);
    let commands = number.print(23_500, Color::Magenta);
    assert_eq!(
        texts(&commands),
        vec![("23.5".to_string(), 230 - 4 * 25, 5, Font::Font24x32, Color::Magenta)]
    );
    let commands = number.print(123_449, Color::Magenta);
    assert_eq!(
        texts(&commands),
        vec![
            ("23.5".to_string(), 130, 5, Font::Font24x32, Color::Black),
            ("123.4".to_string(), 105, 5, Font::Font24x32, Color::Magenta),
        ]
    );
}

#[test]
fn number_is_not_repainted_for_the_same_tenths() {
    let mut number = NumberPrintElement::new(230, 5);
    assert_eq!(number.print(23_500, Color::Magenta).len(), 1);
    assert!(number.print(23_500, Color::Magenta).is_empty());
    assert!(number.print(23_549, Color::Magenta).is_empty());
    assert!(number.print(23_450, Color::Cyan).is_empty());
    assert_eq!(number.print(23_550, Color::Magenta).len(), 2);
}

#[test]
fn first_sample_that_rounds_to_zero_is_not_painted() {
    let mut number = NumberPrintElement::new(230, 5);
    assert!(number.print(0, Color::Green).is_empty());
    assert!(number.print(49, Color::Green).is_empty());
    let commands = number.print(100, Color::Green);
    assert_eq!(texts(&commands), vec![("0.1".to_string(), 155, 5, Font::Font24x32, Color::Green)]);
    let commands = number.print(0, Color::Green);
    assert_eq!(
        texts(&commands),
        vec![
            ("0.1".to_string(), 155, 5, Font::Font24x32, Color::Black),
            ("0.0".to_string(), 155, 5, Font::Font24x32, Color::Green),
        ]
    );
}

#[test]
fn the_marker_erases_a_number_without_painting_one() {
    let mut number = NumberPrintElement::new(230, 5);
    number.print(23_500, Color::Magenta);
    let commands = number.print(INVALID_DAT_NUM, Color::Magenta);
    assert_eq!(texts(&commands), vec![("23.5".to_string(), 130, 5, Font::Font24x32, Color::Black)]);
    let commands = number.print(1_000, Color::Magenta);
    assert_eq!(texts(&commands), vec![("1.0".to_string(), 155, 5, Font::Font24x32, Color::Magenta)]);
}

#[test]
fn viewer_starts_with_the_co2_graph() {
    assert_eq!(Viewer::new(coordinates()).mode(), SensorType::Co2Concentration);
}

#[test]
fn four_switches_come_back_to_the_first_mode() {
    let mut viewer = Viewer::new(coordinates());
    let first = viewer.mode();
    let mut seen = Vec::new();
    for _ in 0..4 {
        let commands = viewer.next_mode();
        assert_eq!(texts(&commands).len(), 0);
        assert_eq!(fills(&commands).len(), WINDOW_WIDTH);
        seen.push(viewer.mode());
    }
    assert_eq!(
        seen,
        vec![
            SensorType::AtmPressure,
            SensorType::Temperature,
            SensorType::Humidity,
            SensorType::Co2Concentration,
        ]
    );
    assert_eq!(viewer.mode(), first);
}

#[test]
fn first_update_paints_four_numbers_and_an_empty_graph() {
    let mut viewer = Viewer::new(coordinates());
    let commands = viewer.update(23_500, 45_000, 415_000, 1_013_250);
    assert_eq!(
        texts(&commands),
        vec![
            ("23.5".to_string(), 130, 5, Font::Font24x32, Color::Magenta),
            ("45.0".to_string(), 130, 55, Font::Font24x32, Color::Cyan),
            ("415.0".to_string(), 105, 105, Font::Font24x32, Color::Green),
            (
                "1013.3".to_string(),
                80,
                155,
                Font::Font24x32,
                Color::Custom { red: 0x1c, green: 0x28, blue: 0x1f }
            ),
        ]
    );
    // the numbers come first, then one cleared column after the other
    assert!(commands[..4].iter().all(|command| matches!(command, DrawCommand::Text { .. })));
    let columns = fills(&commands);
    assert_eq!(columns.len(), WINDOW_WIDTH);
    for (column, fill) in columns.iter().enumerate() {
        assert_eq!(*fill, (column as i32, 199, column as i32, 239, Color::Black));
    }
}

#[test]
fn second_update_with_the_same_tenths_repaints_no_number() {
    let mut viewer = Viewer::new(coordinates());
    viewer.update(23_500, 45_000, 415_000, 1_013_250);
    let commands = viewer.update(23_500, 45_000, 415_000, 1_013_250);
    assert!(texts(&commands).is_empty());
    assert_eq!(fills(&commands).len(), WINDOW_WIDTH);
    let commands = viewer.update(23_451, 45_049, 414_950, 1_013_349);
    assert!(texts(&commands).is_empty());
}

#[test]
fn a_change_of_one_tenth_repaints_one_number_once() {
    let mut viewer = Viewer::new(coordinates());
    viewer.update(23_500, 45_000, 415_000, 1_013_250);
    let commands = viewer.update(23_600, 45_000, 415_000, 1_013_250);
    assert_eq!(
        texts(&commands),
        vec![
            ("23.5".to_string(), 130, 5, Font::Font24x32, Color::Black),
            ("23.6".to_string(), 130, 5, Font::Font24x32, Color::Magenta),
        ]
    );
    assert!(matches!(commands[0], DrawCommand::Text { .. }));
    assert!(matches!(commands[1], DrawCommand::Text { .. }));
    let commands = viewer.update(23_600, 44_900, 415_000, 1_013_250);
    assert_eq!(
        texts(&commands),
        vec![
            ("45.0".to_string(), 130, 55, Font::Font24x32, Color::Black),
            ("44.9".to_string(), 130, 55, Font::Font24x32, Color::Cyan),
        ]
    );
}

#[test]
fn co2_number_turns_red_from_a_thousand_ppm() {
    let mut viewer = Viewer::new(coordinates());
    let commands = viewer.update(0, 0, 999_999, 0);
    assert_eq!(texts(&commands), vec![("1000.0".to_string(), 80, 105, Font::Font24x32, Color::Green)]);
    let commands = viewer.update(0, 0, 1_000_100, 0);
    assert_eq!(
        texts(&commands),
        vec![
            ("1000.0".to_string(), 80, 105, Font::Font24x32, Color::Black),
            ("1000.1".to_string(), 80, 105, Font::Font24x32, Color::Red),
        ]
    );
    let mut viewer = Viewer::new(coordinates());
    let commands = viewer.update(0, 0, 1_000_000, 0);
    assert_eq!(texts(&commands), vec![("1000.0".to_string(), 80, 105, Font::Font24x32, Color::Red)]);
}

#[test]
fn graph_bars_follow_the_rates() {
    let mut viewer = Viewer::new(coordinates());
    viewer.update(0, 0, 400_000, 0);
    viewer.update(0, 0, 800_000, 0);
    viewer.update(0, 0, 600_000, 0);
    let commands = viewer.update(0, 0, 500_000, 0);
    let columns = fills(&commands);
    // slots 317, 318, 319 hold 400, 800 and 600 ppm; the newest sample waits in slot 320
    assert_eq!(columns.len(), WINDOW_WIDTH + 2);
    for column in 0..317 {
        assert_eq!(columns[column], (column as i32, 199, column as i32, 239, Color::Black));
    }
    assert_eq!(columns[317], (317, 199, 317, 239, Color::Black));
    assert_eq!(columns[318], (318, 199, 318, 199, Color::Black));
    assert_eq!(columns[319], (318, 199, 318, 239, Color::Green));
    assert_eq!(columns[320], (319, 199, 319, 219, Color::Black));
    assert_eq!(columns[321], (319, 219, 319, 239, Color::Green));
}

#[test]
fn graph_bar_height_is_rounded_down() {
    let mut viewer = Viewer::new(coordinates());
    viewer.update(0, 0, 100_000, 0);
    viewer.update(0, 0, 400_000, 0);
    viewer.update(0, 0, 200_000, 0);
    let commands = viewer.update(0, 0, 100_000, 0);
    let columns = fills(&commands);
    // 40 * (200 - 100) / (400 - 100) = 13.3
    assert_eq!(columns[columns.len() - 2], (319, 199, 319, 226, Color::Black));
    assert_eq!(columns[columns.len() - 1], (319, 226, 319, 239, Color::Green));
}

#[test]
fn graph_shows_the_active_quantity() {
    let mut viewer = Viewer::new(coordinates());
    viewer.update(10_000, 0, 500_000, 0);
    viewer.update(30_000, 0, 500_000, 0);
    let commands = viewer.update(30_000, 0, 500_000, 0);
    // the CO2 history is flat: no bar at all
    assert_eq!(fills(&commands).len(), WINDOW_WIDTH);
    viewer.next_mode();
    let commands = viewer.next_mode();
    assert_eq!(viewer.mode(), SensorType::Temperature);
    let columns = fills(&commands);
    assert_eq!(columns.len(), WINDOW_WIDTH + 1);
    assert_eq!(columns[WINDOW_WIDTH - 1], (319, 199, 319, 199, Color::Black));
    assert_eq!(columns[WINDOW_WIDTH], (319, 199, 319, 239, Color::Magenta));
}

#[test]
fn columns_with_high_co2_are_red_in_every_mode() {
    let mut viewer = Viewer::new(coordinates());
    viewer.update(10_000, 0, 500_000, 0);
    viewer.update(30_000, 0, 1_000_000, 0);
    let commands = viewer.update(30_000, 0, 500_000, 0);
    let columns = fills(&commands);
    assert_eq!(columns[columns.len() - 1], (319, 199, 319, 239, Color::Red));
    viewer.next_mode();
    let commands = viewer.next_mode();
    assert_eq!(viewer.mode(), SensorType::Temperature);
    let columns = fills(&commands);
    assert_eq!(columns[columns.len() - 1], (319, 199, 319, 239, Color::Red));
}

#[test]
fn graph_without_height_draws_no_bar() {
    let mut viewer = Viewer::new(Coordinates::new(10, 240, 230, 5, 55, 105, 155, 199, 0));
    viewer.update(0, 0, 400_000, 0);
    viewer.update(0, 0, 800_000, 0);
    let commands = viewer.update(0, 0, 800_000, 0);
    let columns = fills(&commands);
    assert_eq!(columns.len(), WINDOW_WIDTH);
    assert_eq!(columns[319], (319, 199, 319, 199, Color::Black));
    let mut viewer = Viewer::new(Coordinates::new(10, 240, 230, 5, 55, 105, 155, 199, -40));
    viewer.update(0, 0, 400_000, 0);
    viewer.update(0, 0, 800_000, 0);
    let commands = viewer.update(0, 0, 800_000, 0);
    let columns = fills(&commands);
    assert_eq!(columns.len(), WINDOW_WIDTH);
    assert_eq!(columns[319], (319, 199, 319, 159, Color::Black));
}
