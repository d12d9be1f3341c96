//! Where each screen of the wizard is drawn, and the text it computes.

use crate::layout::{centered_box_spec, centered_box, Constraint, Rect};
use crate::wizard::{Step, WizardState};
use vstd::prelude::*;

verus! {

/// `v` held between `lo` and `hi`.
pub open spec fn clamp_spec(v: int, lo: int, hi: int) -> int {
    if v < lo {
        lo
    } else if v > hi {
        hi
    } else {
        v
    }
}

/// `a - b`, or zero when `b` is larger.
pub open spec fn saturating_sub_spec(a: u16, b: u16) -> int {
    if a >= b {
        a - b
    } else {
        0
    }
}

/// The smaller of two numbers.
pub open spec fn min_spec(a: int, b: int) -> int {
    if a <= b {
        a
    } else {
        b
    }
}

/// A worker count as the 16-bit number the screens compute with.
pub open spec fn count16(count: usize) -> int {
    count as int % 65536
}

/// Rows given to the worker list: two more than there are workers, but at
/// least three and at most eight.
pub open spec fn list_height_spec(count: usize) -> int {
    clamp_spec(count16(count) + 2, 3, 8)
}

/// Height of the workers dialog: the list, the two fields with their gaps,
/// the hint and the border, but no taller than the screen allows.
pub open spec fn workers_height_spec(count: usize, area_height: u16) -> int {
    min_spec(list_height_spec(count) + 12, saturating_sub_spec(area_height, 2))
}

/// Height of the review dialog: two rows per worker and twelve more, but no
/// taller than the screen allows.
pub open spec fn review_height_spec(count: usize, area_height: u16) -> int {
    min_spec(count16(count) * 2 + 12, saturating_sub_spec(area_height, 4))
}

/// The width (percent) and height (rows) of the dialog of each screen.
pub open spec fn dialog_size(step: Step, count: usize, area_height: u16) -> (u16, u16) {
    match step {
        Step::Welcome => (56, 12),
        Step::Config => (62, 16),
        Step::Workers => (68, workers_height_spec(count, area_height) as u16),
        Step::Review => (62, review_height_spec(count, area_height) as u16),
    }
}

/// The worker counts for which the 16-bit arithmetic on the
/// dialog's height does not overflow on the screen `step` shows.
pub open spec fn count_fits(step: Step, count: usize) -> bool {
    &&& step == Step::Workers ==> count16(count) + 2 <= u16::MAX
    &&& step == Step::Review ==> count16(count) * 2 + 12 <= u16::MAX
}

/// The worker count cut to 16 bits.
fn count_u16(count: usize) -> (res: u16)
    ensures
        res == count16(count),
{
    (count % 65536) as u16
}

/// Rows given to the list of workers on the workers screen.
pub fn worker_list_height(count: usize) -> (res: u16)
    requires
        count16(count) + 2 <= u16::MAX,
    ensures
        res == list_height_spec(count),
{
    let h = count_u16(count) + 2;
    if h < 3 {
        3
    } else if h > 8 {
        8
    } else {
        h
    }
}

/// Height of the workers dialog on a screen `area_height` rows high.
pub fn workers_box_height(count: usize, area_height: u16) -> (res: u16)
    requires
        count16(count) + 2 <= u16::MAX,
    ensures
        res == workers_height_spec(count, area_height),
{
    let total = worker_list_height(count) + 1 + 3 + 1 + 3 + 1 + 1 + 2;
    let room = area_height.saturating_sub(2);
    if total <= room {
        total
    } else {
        room
    }
}

/// Height of the review dialog on a screen `area_height` rows high.
pub fn review_box_height(count: usize, area_height: u16) -> (res: u16)
    requires
        count16(count) * 2 + 12 <= u16::MAX,
    ensures
        res == review_height_spec(count, area_height),
{
    let content = count_u16(count) * 2 + 12;
    let room = area_height.saturating_sub(4);
    if content <= room {
        content
    } else {
        room
    }
}

/// The dialog box of the screen the wizard is on, centered in `area`.
pub fn dialog_area(state: &WizardState, area: Rect) -> (res: Rect)
    requires
        count_fits(state.step, state.workers@.len() as usize),
    ensures
        res == centered_box_spec(
            dialog_size(state.step, state.workers@.len() as usize, area.height).0,
            dialog_size(state.step, state.workers@.len() as usize, area.height).1,
            area,
        ),
{
    match state.step {
        Step::Welcome => centered_box(56, 12, area),
        Step::Config => centered_box(62, 16, area),
        Step::Workers => centered_box(68, workers_box_height(state.workers.len(), area.height), area),
        Step::Review => centered_box(62, review_box_height(state.workers.len(), area.height), area),
    }
}

/// The rows of the configuration dialog: caption, gap, server field, gap,
/// directory field, filler, hint.
pub open spec fn config_rows_spec() -> Seq<Constraint> {
    seq![
        Constraint::Length(1),
        Constraint::Length(1),
        Constraint::Length(3),
        Constraint::Length(1),
        Constraint::Length(3),
        Constraint::Fill(1),
        Constraint::Length(1),
    ]
}

/// The rows of the workers dialog: list, gap, name field, gap, role field,
/// filler, hint.
pub open spec fn worker_rows_spec(list_height: u16) -> Seq<Constraint> {
    seq![
        Constraint::Length(list_height),
        Constraint::Length(1),
        Constraint::Length(3),
        Constraint::Length(1),
        Constraint::Length(3),
        Constraint::Fill(1),
        Constraint::Length(1),
    ]
}

/// The rows the configuration dialog is cut into.
pub fn config_rows() -> (res: Vec<Constraint>)
    ensures
        res@ == config_rows_spec(),
{
    vec![
        Constraint::Length(1),
        Constraint::Length(1),
        Constraint::Length(3),
        Constraint::Length(1),
        Constraint::Length(3),
        Constraint::Fill(1),
        Constraint::Length(1),
    ]
}

/// The rows the workers dialog is cut into, the list taking `list_height`.
pub fn worker_rows(list_height: u16) -> (res: Vec<Constraint>)
    ensures
        res@ == worker_rows_spec(list_height),
{
    vec![
        Constraint::Length(list_height),
        Constraint::Length(1),
        Constraint::Length(3),
        Constraint::Length(1),
        Constraint::Length(3),
        Constraint::Fill(1),
        Constraint::Length(1),
    ]
}

/// The key hint of the workers screen: the review is offered once there is a
/// worker.
pub open spec fn workers_hint_spec(no_workers: bool) -> Seq<char> {
    if no_workers {
        "  Tab switch  ·  Enter add worker  ·  Esc back"@
    } else {
        "  Tab switch  ·  Enter add  ·  Empty Enter → review  ·  Esc back"@
    }
}

/// The key hint shown at the bottom of the workers screen.
pub fn workers_hint(no_workers: bool) -> (res: String)
    ensures
        res@ == workers_hint_spec(no_workers),
{
    if no_workers {
        String::from_str("  Tab switch  ·  Enter add worker  ·  Esc back")
    } else {
        String::from_str("  Tab switch  ·  Enter add  ·  Empty Enter → review  ·  Esc back")
    }
}

/// The line of the review screen that says where a worker's file goes.
pub open spec fn target_line_spec(
    output_dir: Seq<char>,
    name: Seq<char>,
    file_name: Seq<char>,
) -> Seq<char> {
    "      → "@ + output_dir + "/"@ + name + "/"@ + file_name
}

/// The line of the review screen that names the instruction file
/// `file_name` written for worker `name` under `output_dir`.
pub fn target_line(output_dir: &String, name: &String, file_name: &str) -> (res: String)
    ensures
        res@ == target_line_spec(output_dir@, name@, file_name@),
{
    let mut line = String::from_str("      → ");
    line.append(output_dir.as_str());
    line.append("/");
    line.append(name.as_str());
    line.append("/");
    line.append(file_name);
    line
}

} // verus!
