//! The frame as a value: what is shown, whether it differs from what was
//! shown before, and where each piece of text goes.

use vstd::prelude::*;
use vstd::std_specs::cmp::PartialEqSpecImpl;
use vstd::string::StringSliceAdditionalSpecFns;

use super::text::{
    bytes_to_str, field_from_str, field_of, text_of, value_field, written_value, FIELD_LEN,
};

verus! {

/// Number of parameter columns on the display.
pub const COLUMNS: usize = 4;

/// Number of pieces of text that a frame can hold: the page name, and a name
/// and a value for each column.
pub const LABELS: usize = 9;

/// Geometry of the frame and the rate at which it is refreshed.
pub struct DisplayConfig {
    /// Display refresh rate in Hz. Default: 30.
    pub update_frequency_hz: u32,
    /// Total display width in pixels. Default: 128.
    pub display_width: u32,
    /// Total display height in pixels. Default: 64.
    pub display_height: u32,
    /// Width of each parameter column in pixels. Default: 32.
    pub column_width: u32,
    /// Height reserved for the page name at the top. Default: 12.
    pub header_height: u32,
    /// Y coordinate of the parameter names. Default: 24.
    pub param_name_y: i32,
    /// Y coordinate of the parameter values. Default: 40.
    pub param_value_y: i32,
}

impl DisplayConfig {
    /// The configuration that [`Default`] gives.
    pub open spec fn initial() -> DisplayConfig {
        DisplayConfig {
            update_frequency_hz: 30,
            display_width: 128,
            display_height: 64,
            column_width: 32,
            header_height: 12,
            param_name_y: 24,
            param_value_y: 40,
        }
    }

    /// Every coordinate that the layout derives from the configuration fits
    /// a signed 32-bit pixel coordinate.
    pub open spec fn geometry_ok(&self) -> bool {
        &&& self.display_width <= i32::MAX
        &&& self.header_height <= i32::MAX
        &&& COLUMNS * self.column_width <= i32::MAX
    }

    /// X coordinate of the centre of the page name.
    pub open spec fn header_x(&self) -> int {
        self.display_width as int / 2
    }

    /// Y coordinate of the page name: the last row of the header.
    pub open spec fn header_y(&self) -> int {
        self.header_height - 1
    }

    /// X coordinate of the centre of a column.
    pub open spec fn column_centre(&self, column: int) -> int {
        column * self.column_width + self.column_width as int / 2
    }

    /// The refresh period in milliseconds, `1000 / update_frequency_hz`.
    pub fn update_period_ms(&self) -> (period: u64)
        requires
            self.update_frequency_hz != 0,
        ensures
            period == 1000int / (self.update_frequency_hz as int),
    {
        1000 / self.update_frequency_hz as u64
    }

    /// Tells whether the layout can be computed from this configuration, see
    /// [`geometry_ok`](Self::geometry_ok).
    pub fn has_valid_geometry(&self) -> (ok: bool)
        ensures
            ok == self.geometry_ok(),
    {
        self.display_width <= 0x7fff_ffff && self.header_height <= 0x7fff_ffff
            && self.column_width <= 0x1fff_ffff
    }
}

impl Default for DisplayConfig {
    fn default() -> (config: Self)
        ensures
            config == DisplayConfig::initial(),
    {
        Self {
            update_frequency_hz: 30,
            display_width: 128,
            display_height: 64,
            column_width: 32,
            header_height: 12,
            param_name_y: 24,
            param_value_y: 40,
        }
    }
}

/// Everything the display needs to draw one frame.
///
/// Strings are stored as null-padded UTF-8 of at most 15 bytes; the 16th
/// byte is always 0.
#[derive(Clone, Copy, Eq)]
pub struct DisplayState {
    /// Page name, null-padded UTF-8.
    pub page_name: [u8; FIELD_LEN],
    /// Parameter names, null-padded UTF-8, one per column.
    pub param_names: [[u8; FIELD_LEN]; COLUMNS],
    /// Parameter values. `None` marks a column that stays blank.
    pub param_values: [Option<i32>; COLUMNS],
}

/// Compares two text fields byte by byte.
fn same_field(a: &[u8; FIELD_LEN], b: &[u8; FIELD_LEN]) -> (same: bool)
    ensures
        same == (*a == *b),
{
    let mut i: usize = 0;
    while i < FIELD_LEN
        invariant
            i <= FIELD_LEN,
            forall|k: int| 0 <= k < i ==> a[k] == b[k],
        decreases FIELD_LEN - i,
    {
        if a[i] != b[i] {
            return false;
        }
        i += 1;
    }
    assert(*a =~= *b);
    true
}

/// Compares two values, blank or not.
fn same_value(a: Option<i32>, b: Option<i32>) -> (same: bool)
    ensures
        same == (a == b),
{
    match (a, b) {
        (Some(x), Some(y)) => x == y,
        (None, None) => true,
        _ => false,
    }
}

impl PartialEq for DisplayState {
    fn eq(&self, other: &Self) -> (equal: bool) {
        if !same_field(&self.page_name, &other.page_name) {
            return false;
        }
        let mut i: usize = 0;
        while i < COLUMNS
            invariant
                i <= COLUMNS,
                self.page_name == other.page_name,
                forall|k: int|
                    0 <= k < i ==> self.param_names[k] == other.param_names[k]
                        && self.param_values[k] == other.param_values[k],
            decreases COLUMNS - i,
        {
            if !same_field(&self.param_names[i], &other.param_names[i]) {
                return false;
            }
            if !same_value(self.param_values[i], other.param_values[i]) {
                return false;
            }
            i += 1;
        }
        assert(self.param_names =~= other.param_names);
        assert(self.param_values =~= other.param_values);
        true
    }
}

impl PartialEqSpecImpl for DisplayState {
    open spec fn obeys_eq_spec() -> bool {
        true
    }

    open spec fn eq_spec(&self, other: &Self) -> bool {
        *self == *other
    }
}

impl DisplayState {
    /// The state at start-up: no text, every column blank.
    pub open spec fn blank(&self) -> bool {
        &&& self.page_name@ == field_of(Seq::empty())
        &&& forall|i: int|
            0 <= i < COLUMNS ==> (#[trigger] self.param_names[i])@ == field_of(Seq::empty())
        &&& forall|i: int| 0 <= i < COLUMNS ==> (#[trigger] self.param_values[i]) is None
    }

    /// The state shows the page name `page_name` and, in each column, the
    /// name and the value given for it. Names are cut to 15 bytes.
    pub open spec fn shows(
        &self,
        page_name: Seq<u8>,
        param_names: Seq<Option<&str>>,
        param_values: Seq<Option<i32>>,
    ) -> bool {
        &&& self.page_name@ == field_of(page_name)
        &&& forall|i: int|
            0 <= i < COLUMNS ==> (#[trigger] self.param_names[i])@ == match param_names[i] {
                Some(name) => field_of(name.spec_bytes()),
                None => field_of(Seq::empty()),
            }
        &&& self.param_values@ == param_values
    }

    /// Build the state from the page name and, for each column, the
    /// parameter's name and value (`None` for a slot that holds no
    /// parameter).
    ///
    /// Strings are copied into fixed-size buffers and cut off after 15
    /// bytes.
    pub fn from_params(
        page_name: &str,
        param_names: [Option<&str>; COLUMNS],
        param_values: [Option<i32>; COLUMNS],
    ) -> (state: Self)
        ensures
            state.shows(page_name.spec_bytes(), param_names@, param_values@),
    {
        let blank_field = field_from_str("");
        proof {
            reveal_strlit("");
        }
        let mut names = [blank_field, blank_field, blank_field, blank_field];
        let mut i: usize = 0;
        while i < COLUMNS
            invariant
                i <= COLUMNS,
                blank_field@ == field_of(Seq::empty()),
                forall|k: int|
                    0 <= k < i ==> (#[trigger] names[k])@ == match param_names[k] {
                        Some(name) => field_of(name.spec_bytes()),
                        None => field_of(Seq::empty()),
                    },
                forall|k: int| i <= k < COLUMNS ==> (#[trigger] names[k]) == blank_field,
            decreases COLUMNS - i,
        {
            if let Some(name) = param_names[i] {
                names[i] = field_from_str(name);
            }
            i += 1;
        }
        Self { page_name: field_from_str(page_name), param_names: names, param_values }
    }

    /// Reads a null-padded field back as a string slice, see
    /// [`bytes_to_str`](super::text::bytes_to_str).
    pub fn bytes_to_str(bytes: &[u8]) -> (text: &str)
        ensures
            text.spec_bytes() == text_of(bytes@),
            text.spec_bytes().len() <= bytes@.len(),
    {
        bytes_to_str(bytes)
    }
}

impl Default for DisplayState {
    fn default() -> (state: Self)
        ensures
            state.blank(),
    {
        let zeros = [0u8, 0, 0, 0, 0, 0, 0, 0, 0, 0, 0, 0, 0, 0, 0, 0];
        assert(zeros@ =~= field_of(Seq::empty()));
        Self {
            page_name: zeros,
            param_names: [zeros, zeros, zeros, zeros],
            param_values: [None, None, None, None],
        }
    }
}

/// Semantic wrapper around `old != new`.
///
/// Returns `true` if the two display states differ in any field.
pub fn display_state_changed(old: &DisplayState, new: &DisplayState) -> (changed: bool)
    ensures
        changed == (*old != *new),
{
    old != new
}

/// Which parts of the display differ between two states.
pub struct DisplayChanges {
    /// `true` if the page name differs.
    pub page_name_changed: bool,
    /// Per column: `true` if the name or the value differs.
    pub param_changed: [bool; COLUMNS],
}

impl DisplayChanges {
    /// Some part differs.
    pub open spec fn spec_any_changed(&self) -> bool {
        self.page_name_changed || exists|i: int|
            0 <= i < COLUMNS && #[trigger] self.param_changed[i]
    }

    /// Compare two states field by field.
    pub fn detect(old: &DisplayState, new: &DisplayState) -> (changes: Self)
        ensures
            changes.page_name_changed == (old.page_name != new.page_name),
            forall|i: int|
                0 <= i < COLUMNS ==> #[trigger] changes.param_changed[i] == (old.param_names[i]
                    != new.param_names[i] || old.param_values[i] != new.param_values[i]),
            changes.spec_any_changed() == (*old != *new),
    {
        let page_name_changed = !same_field(&old.page_name, &new.page_name);
        let mut param_changed = [false, false, false, false];
        let mut i: usize = 0;
        while i < COLUMNS
            invariant
                i <= COLUMNS,
                forall|k: int|
                    0 <= k < i ==> #[trigger] param_changed[k] == (old.param_names[k]
                        != new.param_names[k] || old.param_values[k] != new.param_values[k]),
            decreases COLUMNS - i,
        {
            param_changed[i] = !same_field(&old.param_names[i], &new.param_names[i]) || !same_value(
                old.param_values[i],
                new.param_values[i],
            );
            i += 1;
        }
        let changes = Self { page_name_changed, param_changed };
        proof {
            if !changes.spec_any_changed() {
                assert forall|k: int| 0 <= k < COLUMNS implies old.param_names[k]
                    == new.param_names[k] && old.param_values[k] == new.param_values[k] by {
                    assert(!changes.param_changed[k]);
                }
                assert(old.param_names =~= new.param_names);
                assert(old.param_values =~= new.param_values);
            }
        }
        changes
    }

    /// Returns `true` if any part differs.
    pub fn any_changed(&self) -> (any: bool)
        ensures
            any == self.spec_any_changed(),
    {
        let mut any = self.page_name_changed;
        let mut i: usize = 0;
        while i < COLUMNS
            invariant
                i <= COLUMNS,
                any == (self.page_name_changed || exists|k: int|
                    0 <= k < i && #[trigger] self.param_changed[k]),
            decreases COLUMNS - i,
        {
            if self.param_changed[i] {
                any = true;
            }
            i += 1;
        }
        any
    }
}

/// One piece of text of a frame.
#[derive(Clone, Copy)]
pub struct Label {
    /// The text, null-padded UTF-8.
    pub text: [u8; FIELD_LEN],
    /// X coordinate of the text's centre.
    pub x: i32,
    /// Y coordinate of the text's baseline.
    pub y: i32,
}

/// `label` is absent where `wanted` is `None`, and otherwise spells the
/// wanted bytes at the wanted place.
pub open spec fn label_is(label: Option<Label>, wanted: Option<(Seq<u8>, int, int)>) -> bool {
    match wanted {
        Some((text, x, y)) => label matches Some(l) && l.text@ == text && l.x == x && l.y == y,
        None => label is None,
    }
}

/// The page name of a frame: the state's page name at the centre of the
/// header, unless it is empty.
pub open spec fn wanted_header(state: DisplayState, config: DisplayConfig) -> Option<
    (Seq<u8>, int, int),
> {
    if text_of(state.page_name@).len() > 0 {
        Some((state.page_name@, config.header_x(), config.header_y()))
    } else {
        None
    }
}

/// The name in a column of a frame: the state's name for that column at the
/// column's centre, unless it is empty.
pub open spec fn wanted_name(state: DisplayState, config: DisplayConfig, column: int) -> Option<
    (Seq<u8>, int, int),
> {
    if text_of(state.param_names[column]@).len() > 0 {
        Some(
            (
                state.param_names[column]@,
                config.column_centre(column),
                config.param_name_y as int,
            ),
        )
    } else {
        None
    }
}

/// The value in a column of a frame: `text` at the column's centre, unless
/// the column is blank.
pub open spec fn wanted_value(
    state: DisplayState,
    config: DisplayConfig,
    column: int,
    text: Seq<u8>,
) -> Option<(Seq<u8>, int, int)> {
    if state.param_values[column] is Some {
        Some((text, config.column_centre(column), config.param_value_y as int))
    } else {
        None
    }
}

/// The text of the value in a column: the value written out, or nothing for
/// a blank column.
pub open spec fn value_text(state: DisplayState, column: int) -> Seq<u8> {
    match state.param_values[column] {
        Some(v) => field_of(written_value(v)),
        None => field_of(Seq::empty()),
    }
}

/// Writes out the value of every column that has one.
pub fn value_fields(state: &DisplayState) -> (fields: [[u8; FIELD_LEN]; COLUMNS])
    ensures
        forall|i: int| 0 <= i < COLUMNS ==> (#[trigger] fields[i])@ == value_text(*state, i),
{
    let zeros = [0u8, 0, 0, 0, 0, 0, 0, 0, 0, 0, 0, 0, 0, 0, 0, 0];
    let mut fields = [zeros, zeros, zeros, zeros];
    let mut i: usize = 0;
    while i < COLUMNS
        invariant
            i <= COLUMNS,
            zeros@ == field_of(Seq::empty()),
            forall|k: int| 0 <= k < i ==> (#[trigger] fields[k])@ == value_text(*state, k),
            forall|k: int| i <= k < COLUMNS ==> (#[trigger] fields[k]) == zeros,
        decreases COLUMNS - i,
    {
        if let Some(v) = state.param_values[i] {
            fields[i] = value_field(v);
        }
        i += 1;
    }
    fields
}

/// Lays a frame out with the given texts for the values: which text goes
/// where.
///
/// Entry 0 is the page name; entries `1 + 2 * i` and `2 + 2 * i` are the
/// name and the value of column `i`. Text is centred on its x coordinate. The
/// entries are in drawing order.
pub fn place_labels(
    state: &DisplayState,
    config: &DisplayConfig,
    values: &[[u8; FIELD_LEN]; COLUMNS],
) -> (labels: [Option<Label>; LABELS])
    requires
        config.geometry_ok(),
    ensures
        label_is(labels[0], wanted_header(*state, *config)),
        forall|i: int|
            0 <= i < COLUMNS ==> label_is(
                #[trigger] labels[1 + 2 * i],
                wanted_name(*state, *config, i),
            ),
        forall|i: int|
            0 <= i < COLUMNS ==> label_is(
                #[trigger] labels[2 + 2 * i],
                wanted_value(*state, *config, i, values[i]@),
            ),
{
    let mut labels: [Option<Label>; LABELS] = [None, None, None, None, None, None, None, None, None];
    if bytes_to_str(&state.page_name).len() != 0 {
        labels[0] = Some(
            Label {
                text: state.page_name,
                x: config.display_width as i32 / 2,
                y: config.header_height as i32 - 1,
            },
        );
    }
    let mut i: usize = 0;
    while i < COLUMNS
        invariant
            i <= COLUMNS,
            config.geometry_ok(),
            label_is(labels[0], wanted_header(*state, *config)),
            forall|k: int|
                0 <= k < i ==> label_is(
                    #[trigger] labels[1 + 2 * k],
                    wanted_name(*state, *config, k),
                ),
            forall|k: int|
                0 <= k < i ==> label_is(
                    #[trigger] labels[2 + 2 * k],
                    wanted_value(*state, *config, k, values[k]@),
                ),
            forall|k: int| 1 + 2 * i <= k < LABELS ==> (#[trigger] labels[k]) is None,
        decreases COLUMNS - i,
    {
        assert(i * config.column_width <= 3 * config.column_width) by (nonlinear_arith)
            requires
                i <= 3,
        ;
        let centre_x = i as i32 * config.column_width as i32 + config.column_width as i32 / 2;
        if bytes_to_str(&state.param_names[i]).len() != 0 {
            labels[1 + 2 * i] = Some(
                Label { text: state.param_names[i], x: centre_x, y: config.param_name_y },
            );
        }
        if state.param_values[i].is_some() {
            labels[2 + 2 * i] = Some(Label { text: values[i], x: centre_x, y: config.param_value_y });
        }
        i += 1;
    }
    labels
}

/// Lays a frame out: the page name, and for each column the parameter's name
/// and its value written out, each with the place where it is drawn. See
/// [`place_labels`] for the order of the entries.
pub fn frame_labels(state: &DisplayState, config: &DisplayConfig) -> (labels: [Option<Label>;
    LABELS])
    requires
        config.geometry_ok(),
    ensures
        label_is(labels[0], wanted_header(*state, *config)),
        forall|i: int|
            0 <= i < COLUMNS ==> label_is(
                #[trigger] labels[1 + 2 * i],
                wanted_name(*state, *config, i),
            ),
        forall|i: int|
            0 <= i < COLUMNS ==> label_is(
                #[trigger] labels[2 + 2 * i],
                wanted_value(*state, *config, i, value_text(*state, i)),
            ),
{
    let values = value_fields(state);
    place_labels(state, config, &values)
}

} // verus!
