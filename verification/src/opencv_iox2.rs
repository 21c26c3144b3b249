//! What the vision process reports about the lane, as it arrives message by
//! message, and gathered into one payload.

use vstd::prelude::*;

verus! {

/// The side to which a detected corner turns.
#[derive(Debug, Clone, Copy, PartialEq, Eq, Structural)]
pub enum CornerDirection {
    Left,
    Right,
}

impl Default for CornerDirection {
    fn default() -> (d: Self)
        ensures
            d == CornerDirection::Right,
    {
        CornerDirection::Right
    }
}

/// The heading error of the centre lane, with a flag that says whether the
/// lane's line was found.
#[derive(Debug, Clone, Copy, PartialEq, Eq)]
pub struct HeadingErrorMsg {
    pub valid: u8,
    pub value: i64,
}

/// The absolute gradient of the lane's line.
#[derive(Debug, Clone, Copy, PartialEq, Eq)]
pub struct AbsLineGradientMsg {
    pub valid: u8,
    pub value: i64,
}

/// Whether a corner is in view: 1 if so.
#[derive(Debug, Clone, Copy, PartialEq, Eq)]
pub struct CornerDetectedMsg {
    pub detected: u8,
}

/// The direction of the corner as a vector; the sign of `x` tells the side.
#[derive(Debug, Clone, Copy, PartialEq, Eq)]
pub struct CornerDirectionMsg {
    pub x: i64,
    pub y: i64,
}

/// The corner's position in the image, both coordinates in `[0, 1]` with
/// the origin at the top left.
#[derive(Debug, Clone, Copy, PartialEq, Eq)]
pub struct CornerPointMsg {
    pub x: i64,
    pub y: i64,
}

/// One complete report of the vision process.
#[derive(Debug, Clone, Copy, PartialEq, Eq)]
pub struct OpenCViox2Payload {
    pub abs_line_gradient: i64,
    pub heading_error: i64,
    pub corner_detected: bool,
    pub corner_coords: (i64, i64),
    pub corner_direction: CornerDirection,
    pub vertical_line_valid: bool,
}

impl Default for OpenCViox2Payload {
    fn default() -> (p: Self)
        ensures
            p == (OpenCViox2Payload {
                abs_line_gradient: 0,
                heading_error: 0,
                corner_detected: false,
                corner_coords: (0i64, 0i64),
                corner_direction: CornerDirection::Right,
                vertical_line_valid: false,
            }),
    {
        OpenCViox2Payload {
            abs_line_gradient: 0,
            heading_error: 0,
            corner_detected: false,
            corner_coords: (0, 0),
            corner_direction: CornerDirection::Right,
            vertical_line_valid: false,
        }
    }
}

/// The report that five messages of one cycle make up.
pub open spec fn spec_assemble(
    heading_error: HeadingErrorMsg,
    abs_line_gradient: AbsLineGradientMsg,
    corner_detected: CornerDetectedMsg,
    corner_direction: CornerDirectionMsg,
    corner_point: CornerPointMsg,
) -> OpenCViox2Payload {
    OpenCViox2Payload {
        abs_line_gradient: abs_line_gradient.value,
        heading_error: heading_error.value,
        corner_detected: corner_detected.detected == 1,
        corner_coords: (corner_point.x, corner_point.y),
        corner_direction: if corner_direction.x >= 0 {
            CornerDirection::Right
        } else {
            CornerDirection::Left
        },
        vertical_line_valid: heading_error.valid == 1,
    }
}

/// Gathers the five messages of one cycle into a report. There is a report
/// exactly when all five have arrived.
pub fn assemble(
    heading_error: Option<&HeadingErrorMsg>,
    abs_line_gradient: Option<&AbsLineGradientMsg>,
    corner_detected: Option<&CornerDetectedMsg>,
    corner_direction: Option<&CornerDirectionMsg>,
    corner_point: Option<&CornerPointMsg>,
) -> (report: Option<OpenCViox2Payload>)
    ensures
        report == if heading_error is Some && abs_line_gradient is Some && corner_detected is Some
            && corner_direction is Some && corner_point is Some {
            Some(
                spec_assemble(
                    *heading_error->0,
                    *abs_line_gradient->0,
                    *corner_detected->0,
                    *corner_direction->0,
                    *corner_point->0,
                ),
            )
        } else {
            None::<OpenCViox2Payload>
        },
{
    match (heading_error, abs_line_gradient, corner_detected, corner_direction, corner_point) {
        (Some(h), Some(g), Some(d), Some(dir), Some(pt)) => Some(
            OpenCViox2Payload {
                abs_line_gradient: g.value,
                heading_error: h.value,
                corner_detected: d.detected == 1,
                corner_coords: (pt.x, pt.y),
                corner_direction: if dir.x >= 0 {
                    CornerDirection::Right
                } else {
                    CornerDirection::Left
                },
                vertical_line_valid: h.valid == 1,
            },
        ),
        _ => None,
    }
}

} // verus!
