//! What the screen geometry and text come to, stated in plain arithmetic.

use crate::layout::{
    centering_columns_spec, centering_rows_spec, error_strip_spec, side_percentage, Constraint,
    Rect,
};
use crate::screen::{
    config_rows_spec, dialog_size, list_height_spec, review_height_spec,
    target_line_spec, worker_rows_spec, workers_height_spec, workers_hint_spec,
};
use crate::wizard::Step;
use vstd::prelude::*;

verus! {

/// The dialog of each screen: welcome 56% by 12 rows, configuration 62% by
/// 16, workers 68% by the list's rows plus twelve, review 62% by two rows per
/// worker plus twelve; the last two never taller than the screen less two
/// (workers) or four (review) rows. The list gets two rows more than there
/// are workers, at least three and at most eight.
pub proof fn lemma_dialog_sizes(count: usize, area_height: u16)
    ensures
        dialog_size(Step::Welcome, count, area_height) == (56u16, 12u16),
        dialog_size(Step::Config, count, area_height) == (62u16, 16u16),
        dialog_size(Step::Workers, count, area_height).0 == 68,
        dialog_size(Step::Review, count, area_height).0 == 62,
        ({
            let c = count as int % 65536;
            let list = if c + 2 < 3 {
                3
            } else if c + 2 > 8 {
                8
            } else {
                c + 2
            };
            let room = if area_height >= 2 {
                area_height - 2
            } else {
                0
            };
            list_height_spec(count) == list && workers_height_spec(count, area_height) == if list
                + 12 <= room {
                list + 12
            } else {
                room
            }
        }),
        ({
            let c = count as int % 65536;
            let room = if area_height >= 4 {
                area_height - 4
            } else {
                0
            };
            review_height_spec(count, area_height) == if 2 * c + 12 <= room {
                2 * c + 12
            } else {
                room
            }
        }),
        dialog_size(Step::Workers, count, area_height).1 == workers_height_spec(count, area_height),
        dialog_size(Step::Review, count, area_height).1 == review_height_spec(count, area_height),
{
}

/// Each more worker adds two rows to the review dialog until it reaches the
/// screen's cap.
pub proof fn lemma_review_grows(count: usize, area_height: u16)
    requires
        count < 32000,
        area_height >= 4,
        2 * count + 14 <= area_height - 4,
    ensures
        review_height_spec((count + 1) as usize, area_height) == review_height_spec(
            count,
            area_height,
        ) + 2,
        review_height_spec(count, area_height) == 2 * count + 12,
{
}

/// A centered box leaves equal percentages on both sides, together no more
/// than what the box leaves of a hundred and at most one less.
pub proof fn lemma_centering(width_pct: u16, height: u16)
    ensures
        width_pct <= 100 ==> 2 * side_percentage(width_pct) <= 100 - width_pct <= 2
            * side_percentage(width_pct) + 1,
        width_pct > 100 ==> side_percentage(width_pct) == 0,
        centering_columns_spec(width_pct) == seq![
            Constraint::Percentage(side_percentage(width_pct)),
            Constraint::Percentage(width_pct),
            Constraint::Percentage(side_percentage(width_pct)),
        ],
        centering_rows_spec(height) == seq![
            Constraint::Fill(1),
            Constraint::Length(height),
            Constraint::Fill(1),
        ],
{
}

/// The dialogs' rows: one caption row, the fields three rows high with a row
/// between, a filler and one hint row; on the workers screen the list takes
/// the first rows.
pub proof fn lemma_dialog_rows(list_height: u16)
    ensures
        config_rows_spec() =~= seq![
            Constraint::Length(1),
            Constraint::Length(1),
            Constraint::Length(3),
            Constraint::Length(1),
            Constraint::Length(3),
            Constraint::Fill(1),
            Constraint::Length(1),
        ],
        worker_rows_spec(list_height) =~= config_rows_spec().update(
            0,
            Constraint::Length(list_height),
        ),
{
}

/// The error strip is the one row just below the box, as wide as it, and is
/// there exactly when that row is on the screen.
pub proof fn lemma_error_strip(b: Rect, area: Rect)
    ensures
        (b.y + b.height < area.height) <==> error_strip_spec(b, area) is Some,
        b.y + b.height < area.height ==> error_strip_spec(b, area) == Some(
            Rect { x: b.x, y: (b.y + b.height) as u16, width: b.width, height: 1 },
        ),
{
}

/// The review line reads `      → <dir>/<name>/<file>`; the workers hint
/// offers the review only once there is a worker.
pub proof fn lemma_screen_text(dir: Seq<char>, name: Seq<char>, file: Seq<char>)
    ensures
        target_line_spec(dir, name, file) == "      → "@ + dir + "/"@ + name + "/"@ + file,
        workers_hint_spec(true) == "  Tab switch  ·  Enter add worker  ·  Esc back"@,
        workers_hint_spec(false)
            == "  Tab switch  ·  Enter add  ·  Empty Enter → review  ·  Esc back"@,
{
}

} // verus!
