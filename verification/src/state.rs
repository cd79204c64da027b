//! The state that the sampling loop writes and the panel reads.
//!
//! The program keeps one value of `AppState` behind a lock. The sampling
//! loop changes it through `record_sample` (or `record_sample_with_tip`),
//! the panel through the size and mode steps; each of them is one update
//! under the lock.

use crate::model::color::Color;
use crate::model::position::Position;
use crate::model::wheel_mode::WheelMode;
use crate::service::cursor_color::{GetCursorColorError, ScreenData};
use vstd::prelude::*;

verus! {

/// The largest preview size the panel lets a user choose.
pub const MAX_SCREEN_TEX_SIZE: usize = 25;

/// The latest sample and the settings of the panel.
#[derive(Debug, PartialEq, Eq)]
pub struct AppState {
    /// Whether the tip window is shown.
    pub visible: bool,
    /// Where the cursor was when the sample was taken.
    pub position: Position,
    /// The picked colour.
    pub color: Color,
    /// Where the tip window was last put.
    pub current_tip_position: Position,
    /// The colours of the previewed square, row by row.
    pub screen_colors: Vec<Color>,
    /// The requested side of the previewed square.
    pub screen_tex_size: usize,
    /// The requested side of the averaged square.
    pub screen_sample_size: usize,
    /// The colour model the wheel shows.
    pub wheel_mode: WheelMode,
}

/// The state as a mathematical value.
pub struct AppStateView {
    pub visible: bool,
    pub position: Position,
    pub color: Color,
    pub current_tip_position: Position,
    pub screen_colors: Seq<Color>,
    pub screen_tex_size: usize,
    pub screen_sample_size: usize,
    pub wheel_mode: WheelMode,
}

/// What `record_sample_with_tip` did.
#[derive(Debug, Clone, Copy, PartialEq, Eq, Structural)]
pub struct TipUpdate {
    /// Whether the state was written.
    pub written: bool,
    /// Where the tip window has to be moved, if it has to be moved.
    pub move_to: Option<Position>,
}

impl View for AppState {
    type V = AppStateView;

    open spec fn view(&self) -> AppStateView {
        AppStateView {
            visible: self.visible,
            position: self.position,
            color: self.color,
            current_tip_position: self.current_tip_position,
            screen_colors: self.screen_colors@,
            screen_tex_size: self.screen_tex_size,
            screen_sample_size: self.screen_sample_size,
            wheel_mode: self.wheel_mode,
        }
    }
}

impl AppStateView {
    /// The state a program starts with: nothing sampled yet, a preview of 21
    /// cells, a window of one cell, the wheel showing saturation and value.
    pub open spec fn initial() -> AppStateView {
        AppStateView {
            visible: true,
            position: Position { x: 0, y: 0 },
            color: Color { r: 0, g: 0, b: 0 },
            current_tip_position: Position { x: 0, y: 0 },
            screen_colors: Seq::empty(),
            screen_tex_size: 21,
            screen_sample_size: 1,
            wheel_mode: WheelMode::HSV,
        }
    }

    /// Whether a sample differs from the recorded one in position or colour.
    pub open spec fn differs(self, position: Position, color: Color) -> bool {
        position != self.position || color != self.color
    }

    /// The state after a sample was offered: a sample that differs is taken
    /// over whole, position, colour and grid; one that does not leaves the
    /// state as it is.
    pub open spec fn recorded(self, position: Position, color: Color, grid: Seq<Color>) -> AppStateView {
        if self.differs(position, color) {
            AppStateView { position, color, screen_colors: grid, ..self }
        } else {
            self
        }
    }

    /// The state after a sample with a tip position was offered: taken over
    /// whole where position, colour or tip differ, left alone otherwise.
    pub open spec fn recorded_with_tip(
        self,
        position: Position,
        color: Color,
        tip: Position,
        grid: Seq<Color>,
    ) -> AppStateView {
        if self.differs(position, color) || tip != self.current_tip_position {
            AppStateView {
                position,
                color,
                current_tip_position: tip,
                screen_colors: grid,
                ..self
            }
        } else {
            self
        }
    }

    /// Whether the two sizes are ones the panel can have set: both odd, the
    /// preview between 1 and the largest size, the averaging window between
    /// 1 and the preview.
    pub open spec fn sizes_valid(self) -> bool {
        &&& self.screen_tex_size % 2 == 1
        &&& self.screen_sample_size % 2 == 1
        &&& 1 <= self.screen_sample_size <= self.screen_tex_size <= MAX_SCREEN_TEX_SIZE
    }

    /// Whether each of the two sizes is what it was in `before` or differs
    /// from it by two cells.
    pub open spec fn one_step_from(self, before: AppStateView) -> bool {
        &&& self.screen_tex_size == before.screen_tex_size || self.screen_tex_size
            == before.screen_tex_size + 2 || self.screen_tex_size + 2 == before.screen_tex_size
        &&& self.screen_sample_size == before.screen_sample_size || self.screen_sample_size
            == before.screen_sample_size + 2 || self.screen_sample_size + 2
            == before.screen_sample_size
    }

    /// Whether the grid holds as many colours as a square preview of the
    /// requested size.
    pub open spec fn grid_fits(self) -> bool {
        self.screen_colors.len() == self.screen_tex_size * self.screen_tex_size
    }

    /// The state with another averaging window.
    pub open spec fn with_sample_size(self, size: usize) -> AppStateView {
        AppStateView { screen_sample_size: size, ..self }
    }

    /// The state with another preview size.
    pub open spec fn with_tex_size(self, size: usize) -> AppStateView {
        AppStateView { screen_tex_size: size, ..self }
    }

    /// The averaging window after a request for a larger one: two cells more
    /// while it is smaller than the preview.
    pub open spec fn larger_sample_size(self) -> usize {
        if self.screen_sample_size < self.screen_tex_size && self.screen_sample_size + 2
            <= usize::MAX {
            (self.screen_sample_size + 2) as usize
        } else {
            self.screen_sample_size
        }
    }

    /// The averaging window after a request for a smaller one: two cells
    /// fewer while it is larger than one cell.
    pub open spec fn smaller_sample_size(self) -> usize {
        if self.screen_sample_size > 1 {
            (self.screen_sample_size - 2) as usize
        } else {
            self.screen_sample_size
        }
    }

    /// The preview size after a request for a larger one: two cells more
    /// while it is below the largest size.
    pub open spec fn larger_tex_size(self) -> usize {
        if self.screen_tex_size < MAX_SCREEN_TEX_SIZE {
            (self.screen_tex_size + 2) as usize
        } else {
            self.screen_tex_size
        }
    }

    /// The preview size after a request for a smaller one: two cells fewer
    /// while it is larger than one cell.
    pub open spec fn smaller_tex_size(self) -> usize {
        if self.screen_tex_size > 1 {
            (self.screen_tex_size - 2) as usize
        } else {
            self.screen_tex_size
        }
    }

    /// The state after a request for a smaller preview: the preview two
    /// cells smaller while it is larger than one cell, and the averaging
    /// window cut down to the new preview where it is larger.
    pub open spec fn with_smaller_preview(self) -> AppStateView {
        let preview = self.smaller_tex_size();
        AppStateView {
            screen_tex_size: preview,
            screen_sample_size: if self.screen_sample_size > preview {
                preview
            } else {
                self.screen_sample_size
            },
            ..self
        }
    }

    /// The averaging window once the grid of the current preview size has
    /// arrived: cut down to the preview where it is larger.
    pub open spec fn fitted_sample_size(self) -> usize {
        if self.grid_fits() && self.screen_sample_size > self.screen_tex_size {
            self.screen_tex_size
        } else {
            self.screen_sample_size
        }
    }

    /// Every request for another size leads from sizes the panel can have
    /// set to such sizes again, and moves each size by two cells or not at
    /// all: whatever is clicked, the window stays odd and between 1 and the
    /// preview, the preview odd and between 1 and the largest size.
    pub proof fn lemma_size_steps_keep_valid(self)
        requires
            self.sizes_valid(),
        ensures
            self.with_sample_size(self.larger_sample_size()).sizes_valid(),
            self.with_sample_size(self.larger_sample_size()).one_step_from(self),
            self.with_sample_size(self.smaller_sample_size()).sizes_valid(),
            self.with_sample_size(self.smaller_sample_size()).one_step_from(self),
            self.with_tex_size(self.larger_tex_size()).sizes_valid(),
            self.with_tex_size(self.larger_tex_size()).one_step_from(self),
            self.with_smaller_preview().sizes_valid(),
            self.with_smaller_preview().one_step_from(self),
            self.with_sample_size(self.fitted_sample_size()) == self,
    {
    }

    /// Offering the sample that was recorded last changes nothing, whatever
    /// grid comes with it: the state is not written a second time.
    pub proof fn lemma_repeated_sample_is_dropped(
        self,
        position: Position,
        color: Color,
        first: Seq<Color>,
        second: Seq<Color>,
    )
        ensures
            !self.recorded(position, color, first).differs(position, color),
            self.recorded(position, color, first).recorded(position, color, second)
                == self.recorded(position, color, first),
    {
    }

    /// The same, for samples that carry a tip position: a repeated sample
    /// neither writes the state nor moves the window.
    pub proof fn lemma_repeated_tip_sample_is_dropped(
        self,
        position: Position,
        color: Color,
        tip: Position,
        first: Seq<Color>,
        second: Seq<Color>,
    )
        ensures
            self.recorded_with_tip(position, color, tip, first).recorded_with_tip(
                position,
                color,
                tip,
                second,
            ) == self.recorded_with_tip(position, color, tip, first),
            self.recorded_with_tip(position, color, tip, first).current_tip_position == tip,
    {
    }
}

impl Default for AppState {
    /// The empty state: everything zero, no colours, the wheel in its
    /// default mode.
    fn default() -> (state: AppState)
        ensures
            state@ == (AppStateView {
                visible: false,
                screen_tex_size: 0,
                screen_sample_size: 0,
                ..AppStateView::initial()
            }),
    {
        AppState {
            visible: false,
            position: Position { x: 0, y: 0 },
            color: Color { r: 0, g: 0, b: 0 },
            current_tip_position: Position { x: 0, y: 0 },
            screen_colors: Vec::new(),
            screen_tex_size: 0,
            screen_sample_size: 0,
            wheel_mode: WheelMode::HSV,
        }
    }
}

impl AppState {
    /// The state a program starts with.
    pub fn new() -> (state: AppState)
        ensures
            state@ == AppStateView::initial(),
            state@.sizes_valid(),
    {
        AppState {
            visible: true,
            position: Position { x: 0, y: 0 },
            color: Color { r: 0, g: 0, b: 0 },
            current_tip_position: Position { x: 0, y: 0 },
            screen_colors: Vec::new(),
            screen_tex_size: 21,
            screen_sample_size: 1,
            wheel_mode: WheelMode::HSV,
        }
    }

    /// Offers a sample to the state. It is written, position, colour and
    /// grid together, when its position or its colour differs from what is
    /// recorded; otherwise the state is not touched. Returns whether it was
    /// written.
    pub fn record_sample(&mut self, position: Position, data: ScreenData) -> (written: bool)
        ensures
            written == old(self)@.differs(position, data.cursor_pixel_color),
            final(self)@ == old(self)@.recorded(
                position,
                data.cursor_pixel_color,
                data.screen_pixel_colors@,
            ),
            !written ==> final(self)@ == old(self)@,
    {
        if position != self.position || data.cursor_pixel_color != self.color {
            self.screen_colors = data.screen_pixel_colors;
            self.position = position;
            self.color = data.cursor_pixel_color;
            true
        } else {
            false
        }
    }

    /// Offers a sample and the tip position that goes with it. The state is
    /// written when position, colour or tip position differ from what is
    /// recorded, and the window has to be moved when the tip position does.
    pub fn record_sample_with_tip(
        &mut self,
        position: Position,
        color: Color,
        tip: Position,
        colors: Vec<Color>,
    ) -> (update: TipUpdate)
        ensures
            update.written == (old(self)@.differs(position, color) || tip != old(self)@.current_tip_position),
            update.move_to == (if tip != old(self)@.current_tip_position {
                Some(tip)
            } else {
                None
            }),
            final(self)@ == old(self)@.recorded_with_tip(position, color, tip, colors@),
            !update.written ==> final(self)@ == old(self)@,
    {
        let moved: bool = tip != self.current_tip_position;
        if position != self.position || color != self.color || moved {
            self.screen_colors = colors;
            self.position = position;
            self.color = color;
            self.current_tip_position = tip;
            TipUpdate {
                written: true,
                move_to: if moved {
                    Some(tip)
                } else {
                    None
                },
            }
        } else {
            TipUpdate { written: false, move_to: None }
        }
    }

    /// Takes the outcome of one look at the screen. A look that failed, be
    /// it for the cursor, the displays or the capture, leaves the state as
    /// it is; one that succeeded is offered to the state as `record_sample`
    /// does. Returns whether the state was written.
    pub fn record_look(&mut self, looked: Result<(Position, ScreenData), GetCursorColorError>) -> (written:
        bool)
        ensures
            looked is Err ==> !written && final(self)@ == old(self)@,
            looked matches Ok(seen) ==> written == old(self)@.differs(
                seen.0,
                seen.1.cursor_pixel_color,
            ) && final(self)@ == old(self)@.recorded(
                seen.0,
                seen.1.cursor_pixel_color,
                seen.1.screen_pixel_colors@,
            ),
    {
        match looked {
            Ok((position, data)) => self.record_sample(position, data),
            Err(_) => false,
        }
    }

    /// Takes the outcome of one look at the screen together with the next
    /// place of the tip. A look that failed leaves the state as it is and
    /// the window where it is; one that succeeded is offered to the state as
    /// `record_sample_with_tip` does.
    pub fn record_look_with_tip(
        &mut self,
        looked: Result<(Position, ScreenData, Position), GetCursorColorError>,
    ) -> (update: TipUpdate)
        ensures
            looked is Err ==> update == (TipUpdate { written: false, move_to: None }) && final(self)@ == old(self)@,
            looked matches Ok(seen) ==> update.written == (old(self)@.differs(
                seen.0,
                seen.1.cursor_pixel_color,
            ) || seen.2 != old(self)@.current_tip_position) && update.move_to == (if seen.2 != old(self)@.current_tip_position {
                Some(seen.2)
            } else {
                None
            }) && final(self)@ == old(self)@.recorded_with_tip(
                seen.0,
                seen.1.cursor_pixel_color,
                seen.2,
                seen.1.screen_pixel_colors@,
            ),
    {
        match looked {
            Ok((position, data, tip)) => self.record_sample_with_tip(
                position,
                data.cursor_pixel_color,
                tip,
                data.screen_pixel_colors,
            ),
            Err(_) => TipUpdate { written: false, move_to: None },
        }
    }

    /// A request for a larger averaging window.
    pub fn grow_sample_size(&mut self)
        ensures
            final(self)@ == old(self)@.with_sample_size(old(self)@.larger_sample_size()),
            old(self)@.sizes_valid() ==> final(self)@.sizes_valid() && final(self)@.one_step_from(
                old(self)@,
            ),
    {
        let size: usize = self.screen_sample_size;
        if size < self.screen_tex_size && size <= usize::MAX - 2 {
            self.screen_sample_size = size + 2;
        }
    }

    /// A request for a smaller averaging window.
    pub fn shrink_sample_size(&mut self)
        ensures
            final(self)@ == old(self)@.with_sample_size(old(self)@.smaller_sample_size()),
            old(self)@.sizes_valid() ==> final(self)@.sizes_valid() && final(self)@.one_step_from(
                old(self)@,
            ),
    {
        let size: usize = self.screen_sample_size;
        if size > 1 {
            self.screen_sample_size = size - 2;
        }
    }

    /// A request for a larger preview.
    pub fn grow_screen_tex_size(&mut self)
        ensures
            final(self)@ == old(self)@.with_tex_size(old(self)@.larger_tex_size()),
            old(self)@.sizes_valid() ==> final(self)@.sizes_valid() && final(self)@.one_step_from(
                old(self)@,
            ),
    {
        let size: usize = self.screen_tex_size;
        if size < MAX_SCREEN_TEX_SIZE {
            self.screen_tex_size = size + 2;
        }
    }

    /// A request for a smaller preview. The averaging window follows the
    /// preview down, so that it never is the larger of the two.
    pub fn shrink_screen_tex_size(&mut self)
        ensures
            final(self)@ == old(self)@.with_smaller_preview(),
            final(self)@.screen_sample_size <= old(self)@.screen_sample_size,
            old(self)@.screen_sample_size <= old(self)@.screen_tex_size ==> final(self)@.screen_sample_size <= final(self)@.screen_tex_size,
            old(self)@.sizes_valid() ==> final(self)@.sizes_valid() && final(self)@.one_step_from(
                old(self)@,
            ),
    {
        let size: usize = self.screen_tex_size;
        if size > 1 {
            self.screen_tex_size = size - 2;
        }
        if self.screen_sample_size > self.screen_tex_size {
            self.screen_sample_size = self.screen_tex_size;
        }
    }

    /// A click on the mode button: the wheel shows the other colour model.
    pub fn toggle_wheel_mode(&mut self)
        ensures
            final(self)@ == (AppStateView {
                wheel_mode: old(self)@.wheel_mode.other(),
                ..old(self)@
            }),
    {
        self.wheel_mode = self.wheel_mode.toggled();
    }

    /// Whether the grid holds as many colours as a square preview of the
    /// requested size, so that it can be shown.
    pub fn grid_fits(&self) -> (fits: bool)
        ensures
            fits == self@.grid_fits(),
    {
        let held: usize = self.screen_colors.len();
        match self.screen_tex_size.checked_mul(self.screen_tex_size) {
            Some(cells) => cells == held,
            None => false,
        }
    }

    /// Brings the averaging window in line with a grid that has arrived: if
    /// the grid fits the preview size and the window is larger than the
    /// preview, the window becomes the preview size. Returns whether the
    /// grid fits.
    pub fn clamp_sample_size(&mut self) -> (fits: bool)
        ensures
            fits == old(self)@.grid_fits(),
            final(self)@ == old(self)@.with_sample_size(old(self)@.fitted_sample_size()),
            fits ==> final(self)@.screen_sample_size <= final(self)@.screen_tex_size,
            old(self)@.sizes_valid() ==> final(self)@.sizes_valid(),
    {
        let fits = self.grid_fits();
        if fits && self.screen_sample_size > self.screen_tex_size {
            self.screen_sample_size = self.screen_tex_size;
        }
        fits
    }
}

} // verus!
