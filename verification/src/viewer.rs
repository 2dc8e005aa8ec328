//! The display model: four histories, the quantity whose graph is shown,
//! and for each quantity the number last painted, so that a label is only
//! repainted when its text changes.

use crate::draw::{drawings, lemma_drawings_push, Color, DrawCommand, Drawing, Font};
use crate::history::{pushed, DataSet, Rate, SensorType, INVALID_DAT_NUM, WINDOW_WIDTH};
use crate::label_text::{tenths_text, LabelText, LABEL_CAPACITY};
use vstd::prelude::*;
use vstd::utf8::{is_ascii_chars, is_ascii_chars_encode_utf8};

verus! {

/// Coordinates and the graph height may not exceed this either way, so that
/// no position computed from them leaves the range of `i32`.
pub const COORDINATE_LIMIT: i32 = 1_000_000;

/// A CO2 sample of 1000 ppm or more is shown in the alert colour.
pub const CO2_ALERT: i32 = 1_000_000;

/// Horizontal room taken by one character of a number, in pixels.
pub const GLYPH_ADVANCE: i32 = 25;

/// Whether a coordinate is within `COORDINATE_LIMIT`.
pub open spec fn within_limit(v: i32) -> bool {
    -COORDINATE_LIMIT <= v <= COORDINATE_LIMIT
}

/// A sample in thousandths rounded to tenths, halves upward.
pub open spec fn rounded_tenths(sample: i32) -> int {
    (sample + 50) / 100
}

/// The colour assigned to a quantity.
pub open spec fn color_of(sensor: SensorType) -> Color {
    match sensor {
        SensorType::Temperature => Color::Magenta,
        SensorType::Humidity => Color::Cyan,
        SensorType::Co2Concentration => Color::Green,
        SensorType::AtmPressure => Color::Custom { red: 0x1c, green: 0x28, blue: 0x1f },
    }
}

/// The colour of the CO2 number: the alert colour from 1000 ppm on.
pub open spec fn co2_color(co2: i32) -> Color {
    if co2 >= CO2_ALERT {
        Color::Red
    } else {
        color_of(SensorType::Co2Concentration)
    }
}

/// The quantity shown after `mode` when the mode is switched.
pub open spec fn next_sensor(mode: SensorType) -> SensorType {
    match mode {
        SensorType::Temperature => SensorType::Humidity,
        SensorType::Humidity => SensorType::Co2Concentration,
        SensorType::Co2Concentration => SensorType::AtmPressure,
        SensorType::AtmPressure => SensorType::Temperature,
    }
}

/// The sample that belongs to `sensor` among the four of one update.
pub open spec fn reading_of(sensor: SensorType, tmp: i32, hum: i32, co2: i32, atm: i32) -> i32 {
    match sensor {
        SensorType::Temperature => tmp,
        SensorType::Humidity => hum,
        SensorType::Co2Concentration => co2,
        SensorType::AtmPressure => atm,
    }
}

/// What painting a number draws: nothing for the empty-slot marker, and
/// otherwise the sample with one decimal place, ending at `x_right`.
pub open spec fn number_drawings(sample: i32, x_right: int, y: int, color: Color) -> Seq<Drawing> {
    if sample == INVALID_DAT_NUM {
        Seq::empty()
    } else {
        let text = tenths_text(rounded_tenths(sample));
        seq![
            Drawing::Text {
                text,
                x: x_right - GLYPH_ADVANCE * text.len(),
                y,
                font: Font::Font24x32,
                color,
            },
        ]
    }
}

/// Height in pixels of the bar for `rate` in a graph of `graph_height`.
pub open spec fn bar_height_of(graph_height: i32, rate: Rate) -> int {
    if graph_height <= 0 {
        0
    } else {
        (graph_height * rate.numer) / (rate.denom as int)
    }
}

/// The fixed captions and units around the numbers.
pub open spec fn caption_drawings(pos: Coordinates) -> Seq<Drawing> {
    seq![
        Drawing::Text {
            text: "Temp."@,
            x: pos.title_x as int,
            y: pos.tmp_y as int,
            font: Font::Font12x16,
            color: Color::White,
        },
        Drawing::Text {
            text: "."@,
            x: pos.unit_x - 5,
            y: pos.tmp_y - 25,
            font: Font::Font24x32,
            color: Color::White,
        },
        Drawing::Text {
            text: "C"@,
            x: pos.unit_x + 8,
            y: pos.tmp_y as int,
            font: Font::Font24x32,
            color: Color::White,
        },
        Drawing::Text {
            text: "Humid."@,
            x: pos.title_x as int,
            y: pos.hum_y as int,
            font: Font::Font12x16,
            color: Color::White,
        },
        Drawing::Text {
            text: "%"@,
            x: pos.unit_x as int,
            y: pos.hum_y as int,
            font: Font::Font24x32,
            color: Color::White,
        },
        Drawing::Text {
            text: "CO2"@,
            x: pos.title_x as int,
            y: pos.co2_y as int,
            font: Font::Font12x16,
            color: Color::White,
        },
        Drawing::Text {
            text: "ppm"@,
            x: pos.unit_x as int,
            y: pos.co2_y as int,
            font: Font::Font24x32,
            color: Color::White,
        },
        Drawing::Text {
            text: "Atm."@,
            x: pos.title_x as int,
            y: pos.atm_y as int,
            font: Font::Font12x16,
            color: Color::White,
        },
        Drawing::Text {
            text: "hPa"@,
            x: pos.unit_x as int,
            y: pos.atm_y as int,
            font: Font::Font24x32,
            color: Color::White,
        },
    ]
}

/// The start-up screen: a black background and one line of status.
pub open spec fn initializing_drawings(is_initialized: bool) -> Seq<Drawing> {
    seq![
        Drawing::Fill { left: 0, top: 0, right: 319, bottom: 239, color: Color::Black },
        if is_initialized {
            Drawing::Text {
                text: "Initializing..."@,
                x: 70,
                y: 210,
                font: Font::Font12x16,
                color: Color::Green,
            }
        } else {
            Drawing::Text {
                text: "initialization failure"@,
                x: 30,
                y: 210,
                font: Font::Font12x16,
                color: Color::Red,
            }
        },
    ]
}

/// Where things stand on the screen.
#[derive(Debug, Copy, Clone)]
pub struct Coordinates {
    pub title_x: i32,
    pub unit_x: i32,
    pub num_x_r: i32,
    pub tmp_y: i32,
    pub hum_y: i32,
    pub co2_y: i32,
    pub atm_y: i32,
    pub graph_y: i32,
    pub graph_height: i32,
}

impl Coordinates {
    /// Every coordinate and the graph height are within `COORDINATE_LIMIT`.
    pub open spec fn wf(&self) -> bool {
        &&& within_limit(self.title_x)
        &&& within_limit(self.unit_x)
        &&& within_limit(self.num_x_r)
        &&& within_limit(self.tmp_y)
        &&& within_limit(self.hum_y)
        &&& within_limit(self.co2_y)
        &&& within_limit(self.atm_y)
        &&& within_limit(self.graph_y)
        &&& within_limit(self.graph_height)
    }

    /// The row of the number of `sensor`.
    pub open spec fn row_of(&self, sensor: SensorType) -> i32 {
        match sensor {
            SensorType::Temperature => self.tmp_y,
            SensorType::Humidity => self.hum_y,
            SensorType::Co2Concentration => self.co2_y,
            SensorType::AtmPressure => self.atm_y,
        }
    }

    /// Columns of the captions, of the units and of the right end of the
    /// numbers; rows of the four quantities; top and height of the graph.
    pub fn new(
        x_title: i32,
        x_unit: i32,
        x_num_r: i32,
        y_tmp: i32,
        y_hum: i32,
        y_co2: i32,
        y_atm: i32,
        y_graph: i32,
        height_graph: i32,
    ) -> (coordinates: Coordinates)
        ensures
            coordinates == (Coordinates {
                title_x: x_title,
                unit_x: x_unit,
                num_x_r: x_num_r,
                tmp_y: y_tmp,
                hum_y: y_hum,
                co2_y: y_co2,
                atm_y: y_atm,
                graph_y: y_graph,
                graph_height: height_graph,
            }),
    {
        Coordinates {
            title_x: x_title,
            unit_x: x_unit,
            num_x_r: x_num_r,
            tmp_y: y_tmp,
            hum_y: y_hum,
            co2_y: y_co2,
            atm_y: y_atm,
            graph_y: y_graph,
            graph_height: height_graph,
        }
    }

    /// Tells whether a display model can be built on these coordinates.
    pub fn is_valid(&self) -> (valid: bool)
        ensures
            valid == self.wf(),
    {
        in_limit(self.title_x) && in_limit(self.unit_x) && in_limit(self.num_x_r) && in_limit(
            self.tmp_y,
        ) && in_limit(self.hum_y) && in_limit(self.co2_y) && in_limit(self.atm_y) && in_limit(
            self.graph_y,
        ) && in_limit(self.graph_height)
    }
}

fn in_limit(v: i32) -> (within: bool)
    ensures
        within == within_limit(v),
{
    -COORDINATE_LIMIT <= v && v <= COORDINATE_LIMIT
}

/// Rounds a sample in thousandths to tenths, halves upward.
pub fn round_tenths(sample: i32) -> (tenths: i32)
    ensures
        tenths == rounded_tenths(sample),
{
    let shifted: i64 = sample as i64 + 50;
    if shifted >= 0 {
        (shifted / 100) as i32
    } else {
        let below: i64 = (99 - shifted) / 100;
        (-below) as i32
    }
}

/// The colour assigned to a quantity.
pub fn get_color(sensor: SensorType) -> (color: Color)
    ensures
        color == color_of(sensor),
{
    match sensor {
        SensorType::Temperature => Color::Magenta,
        SensorType::Humidity => Color::Cyan,
        SensorType::Co2Concentration => Color::Green,
        SensorType::AtmPressure => Color::Custom { red: 0x1c, green: 0x28, blue: 0x1f },
    }
}

/// Appends a text command for a short piece of plain text.
fn push_caption(
    commands: &mut Vec<DrawCommand>,
    caption: &str,
    x: i32,
    y: i32,
    font: Font,
    color: Color,
)
    requires
        is_ascii_chars(caption@),
        caption@.len() <= LABEL_CAPACITY,
    ensures
        drawings(final(commands)@) == drawings(old(commands)@).push(
            Drawing::Text { text: caption@, x: x as int, y: y as int, font, color },
        ),
{
    proof {
        is_ascii_chars_encode_utf8(caption@);
    }
    match LabelText::from_str(caption) {
        Some(text) => {
            let command = DrawCommand::Text { text, x, y, font, color };
            proof {
                lemma_drawings_push(commands@, command);
            }
            commands.push(command);
        },
        None => {},
    }
}

/// The number of one quantity on the screen.
pub struct NumberPrintElement {
    var: i32,
    x_r: i32,
    y: i32,
    last: i32,
}

impl NumberPrintElement {
    /// The sample whose text is on the screen; the empty-slot marker while
    /// nothing is.
    pub closed spec fn shown(&self) -> i32 {
        self.var
    }

    /// The column at which the number ends.
    pub closed spec fn x_right(&self) -> i32 {
        self.x_r
    }

    /// The row of the number.
    pub closed spec fn row(&self) -> i32 {
        self.y
    }

    /// The tenths that the last painted sample rounded to; zero at first.
    pub closed spec fn last_tenths(&self) -> i32 {
        self.last
    }

    /// The number ends within `COORDINATE_LIMIT`, and what is on the screen
    /// is the text of `last_tenths`.
    pub open spec fn wf(&self) -> bool {
        &&& within_limit(self.x_right())
        &&& self.shown() != INVALID_DAT_NUM ==> self.last_tenths() == rounded_tenths(self.shown())
    }

    /// What `print` draws for `value`: nothing while the tenths stay the
    /// same; otherwise the old text in black, then the new text in `color`.
    pub open spec fn print_drawings(&self, value: i32, color: Color) -> Seq<Drawing> {
        if rounded_tenths(value) != self.last_tenths() {
            number_drawings(self.shown(), self.x_right() as int, self.row() as int, Color::Black)
                + number_drawings(value, self.x_right() as int, self.row() as int, color)
        } else {
            Seq::empty()
        }
    }

    /// The sample on the screen after `print` was given `value`.
    pub open spec fn shown_after(&self, value: i32) -> i32 {
        if rounded_tenths(value) != self.last_tenths() {
            value
        } else {
            self.shown()
        }
    }

    /// A number that ends at column `x_right` in row `y`, with nothing
    /// painted yet.
    pub fn new(x_right: i32, y: i32) -> (element: NumberPrintElement)
        requires
            within_limit(x_right),
        ensures
            element.wf(),
            element.shown() == INVALID_DAT_NUM,
            element.x_right() == x_right,
            element.row() == y,
            element.last_tenths() == 0,
    {
        NumberPrintElement { var: INVALID_DAT_NUM, x_r: x_right, y, last: 0 }
    }

    /// Takes a new sample and returns what has to be drawn for it.
    pub fn print(&mut self, value: i32, color: Color) -> (commands: Vec<DrawCommand>)
        requires
            old(self).wf(),
        ensures
            final(self).wf(),
            drawings(commands@) == old(self).print_drawings(value, color),
            final(self).shown() == old(self).shown_after(value),
            final(self).last_tenths() == rounded_tenths(value),
            final(self).x_right() == old(self).x_right(),
            final(self).row() == old(self).row(),
    {
        let mut commands: Vec<DrawCommand> = Vec::new();
        assert(drawings(commands@) =~= Seq::<Drawing>::empty());
        self.print_into(value, color, &mut commands);
        assert(Seq::<Drawing>::empty() + old(self).print_drawings(value, color) =~= old(self).print_drawings(value, color));
        commands
    }

    /// As `print`, with the commands appended to `commands`.
    pub(crate) fn print_into(&mut self, value: i32, color: Color, commands: &mut Vec<DrawCommand>)
        requires
            old(self).wf(),
        ensures
            final(self).wf(),
            drawings(final(commands)@) == drawings(old(commands)@) + old(self).print_drawings(
                value,
                color,
            ),
            final(self).shown() == old(self).shown_after(value),
            final(self).last_tenths() == rounded_tenths(value),
            final(self).x_right() == old(self).x_right(),
            final(self).row() == old(self).row(),
    {
        let recent = round_tenths(value);
        if recent != self.last {
            let ghost start = drawings(commands@);
            let ghost erase = number_drawings(
                self.var,
                self.x_r as int,
                self.y as int,
                Color::Black,
            );
            let ghost draw = number_drawings(value, self.x_r as int, self.y as int, color);
            self.print_sub(Color::Black, commands);
            self.var = value;
            self.print_sub(color, commands);
            self.last = recent;
            assert((start + erase) + draw =~= start + (erase + draw));
        } else {
            assert(drawings(commands@) + Seq::<Drawing>::empty() =~= drawings(commands@));
        }
    }

    /// Paints the sample on the screen in `color`, right aligned.
    fn print_sub(&self, color: Color, commands: &mut Vec<DrawCommand>)
        requires
            within_limit(self.x_right()),
        ensures
            drawings(final(commands)@) == drawings(old(commands)@) + number_drawings(
                self.shown(),
                self.x_right() as int,
                self.row() as int,
                color,
            ),
    {
        if self.var != INVALID_DAT_NUM {
            let text = LabelText::from_tenths(round_tenths(self.var));
            let width: i32 = text.len() as i32;
            let x_l: i32 = self.x_r - width * GLYPH_ADVANCE;
            let command = DrawCommand::Text { text, x: x_l, y: self.y, font: Font::Font24x32, color };
            proof {
                lemma_drawings_push(commands@, command);
                assert(drawings(commands@).push(command@) =~= drawings(commands@) + seq![
                    command@,
                ]);
            }
            commands.push(command);
        } else {
            assert(drawings(commands@) + Seq::<Drawing>::empty() =~= drawings(commands@));
        }
    }
}

/// Computes the height of a bar.
fn bar_height(graph_height: i32, rate: Rate) -> (value: i32)
    requires
        rate.numer <= rate.denom,
        1 <= rate.denom,
    ensures
        value == bar_height_of(graph_height, rate),
        0 <= value,
        graph_height >= 0 ==> value <= graph_height,
{
    if graph_height <= 0 {
        0
    } else {
        assert(graph_height * rate.numer <= graph_height * rate.denom <= 0x7fff_ffff
            * 0xffff_ffff) by (nonlinear_arith)
            requires
                0 < graph_height <= 0x7fff_ffff,
                0 <= rate.numer <= rate.denom <= 0xffff_ffff,
        ;
        let scaled: u64 = graph_height as u64 * rate.numer as u64;
        let value: u64 = scaled / rate.denom as u64;
        assert(value <= graph_height) by (nonlinear_arith)
            requires
                value == (graph_height * rate.numer) / (rate.denom as int),
                graph_height * rate.numer <= graph_height * rate.denom,
                rate.denom >= 1,
                graph_height > 0,
        ;
        value as i32
    }
}

/// The display model.
pub struct Viewer {
    pos: Coordinates,
    mode: SensorType,
    num_tmp: NumberPrintElement,
    num_hum: NumberPrintElement,
    num_co2: NumberPrintElement,
    num_atm: NumberPrintElement,
    history: DataSet,
}

impl Viewer {
    /// Where things stand on the screen.
    pub closed spec fn coordinates(&self) -> Coordinates {
        self.pos
    }

    /// The quantity whose graph is shown.
    pub closed spec fn active_mode(&self) -> SensorType {
        self.mode
    }

    /// The number of `sensor`.
    pub closed spec fn element(&self, sensor: SensorType) -> NumberPrintElement {
        match sensor {
            SensorType::Temperature => self.num_tmp,
            SensorType::Humidity => self.num_hum,
            SensorType::Co2Concentration => self.num_co2,
            SensorType::AtmPressure => self.num_atm,
        }
    }

    /// The four histories.
    pub closed spec fn histories(&self) -> DataSet {
        self.history
    }

    /// The number of `sensor` is well formed and stands where the
    /// coordinates put it.
    pub open spec fn element_placed(&self, sensor: SensorType) -> bool {
        &&& self.element(sensor).wf()
        &&& self.element(sensor).x_right() == self.coordinates().num_x_r
        &&& self.element(sensor).row() == self.coordinates().row_of(sensor)
    }

    /// The coordinates are within the limit, the histories are well
    /// formed, and each number stands where the coordinates put it.
    pub open spec fn wf(&self) -> bool {
        &&& self.coordinates().wf()
        &&& self.histories().wf()
        &&& self.element_placed(SensorType::Temperature)
        &&& self.element_placed(SensorType::Humidity)
        &&& self.element_placed(SensorType::Co2Concentration)
        &&& self.element_placed(SensorType::AtmPressure)
    }

    /// The colour of the bar in `column`: the alert colour where the CO2
    /// sample of that column is 1000 ppm or more, whatever quantity is
    /// shown, and otherwise the colour of the quantity shown.
    pub open spec fn bar_color(&self, column: int) -> Color {
        if self.histories().history(SensorType::Co2Concentration)@[column] >= CO2_ALERT {
            Color::Red
        } else {
            color_of(self.active_mode())
        }
    }

    /// What is drawn for one column of the graph: the room above the bar is
    /// cleared, then the bar is filled, if it has any height.
    pub open spec fn column_drawings(&self, column: int) -> Seq<Drawing> {
        let pos = self.coordinates();
        let value = bar_height_of(
            pos.graph_height,
            self.histories().history(self.active_mode()).rate_at(column),
        );
        let bottom = pos.graph_y + pos.graph_height;
        let clear = Drawing::Fill {
            left: column,
            top: pos.graph_y as int,
            right: column,
            bottom: bottom - value,
            color: Color::Black,
        };
        if value > 0 {
            seq![
                clear,
                Drawing::Fill {
                    left: column,
                    top: bottom - value,
                    right: column,
                    bottom,
                    color: self.bar_color(column),
                },
            ]
        } else {
            seq![clear]
        }
    }

    /// The drawings of the first `columns` columns, left to right.
    pub open spec fn graph_upto(&self, columns: nat) -> Seq<Drawing>
        decreases columns,
    {
        if columns == 0 {
            Seq::empty()
        } else {
            self.graph_upto((columns - 1) as nat) + self.column_drawings(columns - 1)
        }
    }

    /// The drawings of the whole graph.
    pub open spec fn graph_drawings(&self) -> Seq<Drawing> {
        self.graph_upto(WINDOW_WIDTH as nat)
    }

    /// What the four numbers draw when they are given the samples of one
    /// update, in the order temperature, humidity, CO2, pressure.
    pub open spec fn label_drawings(&self, tmp: i32, hum: i32, co2: i32, atm: i32) -> Seq<Drawing> {
        self.element(SensorType::Temperature).print_drawings(
            tmp,
            color_of(SensorType::Temperature),
        ) + self.element(SensorType::Humidity).print_drawings(hum, color_of(SensorType::Humidity))
            + self.element(SensorType::Co2Concentration).print_drawings(co2, co2_color(co2))
            + self.element(SensorType::AtmPressure).print_drawings(
            atm,
            color_of(SensorType::AtmPressure),
        )
    }

    /// `after` is this model once it has taken the samples of one update:
    /// each history has its sample appended, each number remembers the
    /// tenths of its sample, and nothing else has changed.
    pub open spec fn updates_to(&self, after: Viewer, tmp: i32, hum: i32, co2: i32, atm: i32) -> bool {
        &&& after.wf()
        &&& after.coordinates() == self.coordinates()
        &&& after.active_mode() == self.active_mode()
        &&& forall|sensor: SensorType|
            #![trigger after.histories().history(sensor)]
            after.histories().history(sensor)@ == pushed(
                self.histories().history(sensor)@,
                reading_of(sensor, tmp, hum, co2, atm),
            )
        &&& forall|sensor: SensorType|
            #![trigger after.element(sensor)]
            after.element(sensor).shown() == self.element(sensor).shown_after(
                reading_of(sensor, tmp, hum, co2, atm),
            ) && after.element(sensor).last_tenths() == rounded_tenths(
                reading_of(sensor, tmp, hum, co2, atm),
            )
    }

    /// A display model with empty histories and no number painted, showing
    /// the CO2 graph.
    pub fn new(cordinates: Coordinates) -> (viewer: Viewer)
        requires
            cordinates.wf(),
        ensures
            viewer.wf(),
            viewer.coordinates() == cordinates,
            viewer.active_mode() == SensorType::Co2Concentration,
            forall|sensor: SensorType|
                #![trigger viewer.element(sensor)]
                viewer.element(sensor).shown() == INVALID_DAT_NUM && viewer.element(
                    sensor,
                ).last_tenths() == 0,
            forall|sensor: SensorType, i: int|
                0 <= i <= WINDOW_WIDTH ==> #[trigger] viewer.histories().history(sensor)@[i]
                    == INVALID_DAT_NUM,
    {
        Viewer {
            pos: cordinates,
            mode: SensorType::Co2Concentration,
            num_tmp: NumberPrintElement::new(cordinates.num_x_r, cordinates.tmp_y),
            num_hum: NumberPrintElement::new(cordinates.num_x_r, cordinates.hum_y),
            num_co2: NumberPrintElement::new(cordinates.num_x_r, cordinates.co2_y),
            num_atm: NumberPrintElement::new(cordinates.num_x_r, cordinates.atm_y),
            history: DataSet::new(),
        }
    }

    /// The quantity whose graph is shown.
    pub fn mode(&self) -> (mode: SensorType)
        ensures
            mode == self.active_mode(),
    {
        self.mode
    }

    /// Takes the samples of one sensing cycle: appends each to its history,
    /// repaints the numbers whose text changes, and redraws the graph.
    pub fn update(&mut self, tmp: i32, hum: i32, co2: i32, atm: i32) -> (commands: Vec<DrawCommand>)
        requires
            old(self).wf(),
        ensures
            old(self).updates_to(*final(self), tmp, hum, co2, atm),
            drawings(commands@) == old(self).label_drawings(tmp, hum, co2, atm) + final(self).graph_drawings(),
    {
        self.history.set_new_data(SensorType::Temperature, tmp);
        self.history.set_new_data(SensorType::Humidity, hum);
        self.history.set_new_data(SensorType::Co2Concentration, co2);
        self.history.set_new_data(SensorType::AtmPressure, atm);

        let color_co2 = if CO2_ALERT <= co2 {
            Color::Red
        } else {
            get_color(SensorType::Co2Concentration)
        };
        let mut commands: Vec<DrawCommand> = Vec::new();
        assert(drawings(commands@) =~= Seq::<Drawing>::empty());
        self.num_tmp.print_into(tmp, get_color(SensorType::Temperature), &mut commands);
        self.num_hum.print_into(hum, get_color(SensorType::Humidity), &mut commands);
        self.num_co2.print_into(co2, color_co2, &mut commands);
        self.num_atm.print_into(atm, get_color(SensorType::AtmPressure), &mut commands);
        assert(drawings(commands@) =~= old(self).label_drawings(tmp, hum, co2, atm));
        self.write_graph(&mut commands);
        commands
    }

    /// Switches to the next quantity and redraws the graph for it.
    pub fn next_mode(&mut self) -> (commands: Vec<DrawCommand>)
        requires
            old(self).wf(),
        ensures
            final(self).wf(),
            final(self).active_mode() == next_sensor(old(self).active_mode()),
            final(self).coordinates() == old(self).coordinates(),
            final(self).histories() == old(self).histories(),
            forall|sensor: SensorType|
                #![trigger final(self).element(sensor)]
                final(self).element(sensor) == old(self).element(sensor),
            drawings(commands@) == final(self).graph_drawings(),
    {
        self.mode = match self.mode {
            SensorType::Temperature => SensorType::Humidity,
            SensorType::Humidity => SensorType::Co2Concentration,
            SensorType::Co2Concentration => SensorType::AtmPressure,
            SensorType::AtmPressure => SensorType::Temperature,
        };
        let mut commands: Vec<DrawCommand> = Vec::new();
        assert(drawings(commands@) =~= Seq::<Drawing>::empty());
        self.write_graph(&mut commands);
        assert(Seq::<Drawing>::empty() + self.graph_drawings() =~= self.graph_drawings());
        commands
    }

    /// The captions and units that never change.
    pub fn print_labels(&self) -> (commands: Vec<DrawCommand>)
        requires
            self.wf(),
        ensures
            drawings(commands@) == caption_drawings(self.coordinates()),
    {
        proof {
            reveal_strlit("Temp.");
            reveal_strlit(".");
            reveal_strlit("C");
            reveal_strlit("Humid.");
            reveal_strlit("%");
            reveal_strlit("CO2");
            reveal_strlit("ppm");
            reveal_strlit("Atm.");
            reveal_strlit("hPa");
        }
        let white = Color::White;
        let mut commands: Vec<DrawCommand> = Vec::new();
        assert(drawings(commands@) =~= Seq::<Drawing>::empty());
        push_caption(&mut commands, "Temp.", self.pos.title_x, self.pos.tmp_y, Font::Font12x16, white);
        push_caption(
            &mut commands,
            ".",
            self.pos.unit_x - 5,
            self.pos.tmp_y - 25,
            Font::Font24x32,
            white,
        );
        push_caption(&mut commands, "C", self.pos.unit_x + 8, self.pos.tmp_y, Font::Font24x32, white);
        push_caption(&mut commands, "Humid.", self.pos.title_x, self.pos.hum_y, Font::Font12x16, white);
        push_caption(&mut commands, "%", self.pos.unit_x, self.pos.hum_y, Font::Font24x32, white);
        push_caption(&mut commands, "CO2", self.pos.title_x, self.pos.co2_y, Font::Font12x16, white);
        push_caption(&mut commands, "ppm", self.pos.unit_x, self.pos.co2_y, Font::Font24x32, white);
        push_caption(&mut commands, "Atm.", self.pos.title_x, self.pos.atm_y, Font::Font12x16, white);
        push_caption(&mut commands, "hPa", self.pos.unit_x, self.pos.atm_y, Font::Font24x32, white);
        assert(drawings(commands@) =~= caption_drawings(self.coordinates()));
        commands
    }

    /// Appends the drawings of the graph, column by column.
    fn write_graph(&self, commands: &mut Vec<DrawCommand>)
        requires
            self.wf(),
        ensures
            drawings(final(commands)@) == drawings(old(commands)@) + self.graph_drawings(),
    {
        let y_bottom: i32 = self.pos.graph_y + self.pos.graph_height;
        let color = get_color(self.mode);
        let ghost start = drawings(commands@);
        assert(start + self.graph_upto(0) =~= start);
        let mut column: usize = 0;
        while column < WINDOW_WIDTH
            invariant
                column <= WINDOW_WIDTH,
                self.wf(),
                y_bottom == self.pos.graph_y + self.pos.graph_height,
                color == color_of(self.mode),
                drawings(commands@) == start + self.graph_upto(column as nat),
            decreases WINDOW_WIDTH - column,
        {
            assert(self.histories().history(self.mode).wf());
            assert(self.histories().history(SensorType::Co2Concentration).wf());
            let x: i32 = column as i32;
            let value = bar_height(self.pos.graph_height, self.history.get_rate(self.mode, column));
            let ghost upto = drawings(commands@);
            let clear = DrawCommand::Fill {
                left: x,
                top: self.pos.graph_y,
                right: x,
                bottom: y_bottom - value,
                color: Color::Black,
            };
            proof {
                lemma_drawings_push(commands@, clear);
            }
            commands.push(clear);
            if 0 < value {
                let alert = self.history.sample(SensorType::Co2Concentration, column) >= CO2_ALERT;
                let bar = DrawCommand::Fill {
                    left: x,
                    top: y_bottom - value,
                    right: x,
                    bottom: y_bottom,
                    color: if alert {
                        Color::Red
                    } else {
                        color
                    },
                };
                proof {
                    lemma_drawings_push(commands@, bar);
                }
                commands.push(bar);
            }
            assert(drawings(commands@) =~= upto + self.column_drawings(column as int));
            assert((start + self.graph_upto(column as nat)) + self.column_drawings(column as int)
                =~= start + self.graph_upto((column + 1) as nat));
            column = column + 1;
        }
    }
}

/// The start-up screen, reporting whether the sensors came up.
pub fn print_initializing(is_initialized: bool) -> (commands: Vec<DrawCommand>)
    ensures
        drawings(commands@) == initializing_drawings(is_initialized),
{
    proof {
        reveal_strlit("Initializing...");
        reveal_strlit("initialization failure");
    }
    let mut commands: Vec<DrawCommand> = Vec::new();
    assert(drawings(commands@) =~= Seq::<Drawing>::empty());
    let background = DrawCommand::Fill { left: 0, top: 0, right: 319, bottom: 239, color: Color::Black };
    proof {
        lemma_drawings_push(commands@, background);
    }
    commands.push(background);
    if is_initialized {
        push_caption(&mut commands, "Initializing...", 70, 210, Font::Font12x16, Color::Green);
    } else {
        push_caption(&mut commands, "initialization failure", 30, 210, Font::Font12x16, Color::Red);
    }
    assert(drawings(commands@) =~= initializing_drawings(is_initialized));
    commands
}

/// Four switches of the mode lead back to the quantity shown at first.
pub proof fn lemma_four_modes_cycle(mode: SensorType)
    ensures
        next_sensor(next_sensor(next_sensor(next_sensor(mode)))) == mode,
        next_sensor(mode) != mode,
        next_sensor(next_sensor(mode)) != mode,
        next_sensor(next_sensor(next_sensor(mode))) != mode,
{
}

/// The colour in which an update paints the number of `sensor`.
pub open spec fn label_color(sensor: SensorType, sample: i32) -> Color {
    match sensor {
        SensorType::Co2Concentration => co2_color(sample),
        _ => color_of(sensor),
    }
}

/// An update whose samples round to the same tenths as those of the update
/// before repaints no number.
pub proof fn lemma_same_tenths_repaint_nothing(
    before: Viewer,
    after: Viewer,
    first: (i32, i32, i32, i32),
    second: (i32, i32, i32, i32),
)
    requires
        before.updates_to(after, first.0, first.1, first.2, first.3),
        forall|sensor: SensorType|
            rounded_tenths(#[trigger] reading_of(sensor, second.0, second.1, second.2, second.3))
                == rounded_tenths(reading_of(sensor, first.0, first.1, first.2, first.3)),
    ensures
        after.label_drawings(second.0, second.1, second.2, second.3) == Seq::<Drawing>::empty(),
{
    assert(reading_of(SensorType::Temperature, second.0, second.1, second.2, second.3) == second.0);
    assert(reading_of(SensorType::Humidity, second.0, second.1, second.2, second.3) == second.1);
    assert(reading_of(SensorType::Co2Concentration, second.0, second.1, second.2, second.3)
        == second.2);
    assert(reading_of(SensorType::AtmPressure, second.0, second.1, second.2, second.3) == second.3);
    assert(after.element(SensorType::Temperature).last_tenths() == rounded_tenths(first.0));
    assert(after.element(SensorType::Humidity).last_tenths() == rounded_tenths(first.1));
    assert(after.element(SensorType::Co2Concentration).last_tenths() == rounded_tenths(first.2));
    assert(after.element(SensorType::AtmPressure).last_tenths() == rounded_tenths(first.3));
    assert(after.label_drawings(second.0, second.1, second.2, second.3) =~= Seq::<Drawing>::empty());
}

/// Where the sample of one quantity comes to round to other tenths than at
/// the update before, and those of the other three do not, the next update
/// repaints that one number and nothing else: first the text that was on
/// the screen in black, then the new text in the colour of the quantity.
/// This is said of a number that is on the screen and of a new sample
/// that is one.
pub proof fn lemma_changed_tenths_repaint_once(
    before: Viewer,
    after: Viewer,
    first: (i32, i32, i32, i32),
    second: (i32, i32, i32, i32),
    changed: SensorType,
)
    requires
        before.updates_to(after, first.0, first.1, first.2, first.3),
        after.element(changed).shown() != INVALID_DAT_NUM,
        reading_of(changed, second.0, second.1, second.2, second.3) != INVALID_DAT_NUM,
        forall|sensor: SensorType|
            (sensor != changed) == (rounded_tenths(
                #[trigger] reading_of(sensor, second.0, second.1, second.2, second.3),
            ) == rounded_tenths(reading_of(sensor, first.0, first.1, first.2, first.3))),
    ensures
        ({
            let old_text = tenths_text(
                rounded_tenths(reading_of(changed, first.0, first.1, first.2, first.3)),
            );
            let sample = reading_of(changed, second.0, second.1, second.2, second.3);
            let new_text = tenths_text(rounded_tenths(sample));
            let x_right = after.coordinates().num_x_r;
            let row = after.coordinates().row_of(changed);
            after.label_drawings(second.0, second.1, second.2, second.3) == seq![
                Drawing::Text {
                    text: old_text,
                    x: x_right - GLYPH_ADVANCE * old_text.len(),
                    y: row as int,
                    font: Font::Font24x32,
                    color: Color::Black,
                },
                Drawing::Text {
                    text: new_text,
                    x: x_right - GLYPH_ADVANCE * new_text.len(),
                    y: row as int,
                    font: Font::Font24x32,
                    color: label_color(changed, sample),
                },
            ]
        }),
{
    assert(reading_of(SensorType::Temperature, second.0, second.1, second.2, second.3) == second.0);
    assert(reading_of(SensorType::Humidity, second.0, second.1, second.2, second.3) == second.1);
    assert(reading_of(SensorType::Co2Concentration, second.0, second.1, second.2, second.3)
        == second.2);
    assert(reading_of(SensorType::AtmPressure, second.0, second.1, second.2, second.3) == second.3);
    assert(after.element(SensorType::Temperature).last_tenths() == rounded_tenths(first.0));
    assert(after.element(SensorType::Humidity).last_tenths() == rounded_tenths(first.1));
    assert(after.element(SensorType::Co2Concentration).last_tenths() == rounded_tenths(first.2));
    assert(after.element(SensorType::AtmPressure).last_tenths() == rounded_tenths(first.3));
    assert(after.element_placed(SensorType::Temperature));
    assert(after.element_placed(SensorType::Humidity));
    assert(after.element_placed(SensorType::Co2Concentration));
    assert(after.element_placed(SensorType::AtmPressure));
    let sample = reading_of(changed, second.0, second.1, second.2, second.3);
    let element = after.element(changed);
    let pair = element.print_drawings(sample, label_color(changed, sample));
    assert(after.label_drawings(second.0, second.1, second.2, second.3) =~= pair);
    assert(pair.len() == 2);
}

} // verus!
