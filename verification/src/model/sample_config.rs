//! The two sizes a user can adjust: how large a piece of the screen is
//! previewed, and how much of it is averaged into the picked colour.

use vstd::prelude::*;

verus! {

/// The largest number of cells that fit on each side of the centre cell of a
/// square of the requested size.
pub open spec fn half_of(size: usize) -> int {
    size as int / 2
}

/// The requested size made odd and at least one: the size itself when it is
/// odd, the next odd number otherwise.
pub open spec fn side_of(size: usize) -> int {
    2 * half_of(size) + 1
}

/// A preview size and an averaging window that can be used as they are:
/// both odd and at least one, the window no larger than the preview.
#[derive(Debug, Clone, Copy)]
pub struct SampleConfig {
    preview_size: usize,
    averaging_window: usize,
}

impl SampleConfig {
    #[verifier::type_invariant]
    spec fn valid(self) -> bool {
        &&& self.preview_size % 2 == 1
        &&& self.averaging_window % 2 == 1
        &&& self.averaging_window <= self.preview_size
    }

    /// The side of the previewed square, in cells.
    pub closed spec fn preview(self) -> int {
        self.preview_size as int
    }

    /// The side of the averaged square, in cells.
    pub closed spec fn window(self) -> int {
        self.averaging_window as int
    }

    /// The first row and column of the averaged square inside the preview.
    pub open spec fn window_from(self) -> int {
        (self.preview() - self.window()) / 2
    }

    /// The row and column just after the averaged square.
    pub open spec fn window_to(self) -> int {
        self.window_from() + self.window()
    }

    /// Whether both sizes are odd and the window fits into the preview. Every
    /// configuration that `clamped` returns is.
    pub open spec fn wf(self) -> bool {
        &&& self.preview() % 2 == 1
        &&& self.window() % 2 == 1
        &&& 1 <= self.window() <= self.preview() <= usize::MAX
    }

    /// The configuration for the requested sizes. Each size is made odd and
    /// at least one; a window larger than the preview is cut down to the
    /// preview.
    pub fn clamped(preview_size: usize, averaging_window: usize) -> (config: SampleConfig)
        ensures
            config.wf(),
            config.preview() == side_of(preview_size),
            config.window() == if side_of(averaging_window) <= side_of(preview_size) {
                side_of(averaging_window)
            } else {
                side_of(preview_size)
            },
            averaging_window >= preview_size ==> config.window() == config.preview(),
    {
        let preview: usize = 2 * (preview_size / 2) + 1;
        let requested: usize = 2 * (averaging_window / 2) + 1;
        let window: usize = if requested <= preview {
            requested
        } else {
            preview
        };
        SampleConfig { preview_size: preview, averaging_window: window }
    }

    /// The side of the previewed square.
    pub fn preview_size(&self) -> (size: usize)
        ensures
            size == self.preview(),
            self.wf(),
    {
        proof {
            use_type_invariant(self);
        }
        self.preview_size
    }

    /// The side of the averaged square.
    pub fn averaging_window(&self) -> (size: usize)
        ensures
            size == self.window(),
            self.wf(),
    {
        proof {
            use_type_invariant(self);
        }
        self.averaging_window
    }

    /// The first row and column of the averaged square inside the preview.
    pub fn window_start(&self) -> (start: usize)
        ensures
            start == self.window_from(),
            self.wf(),
    {
        proof {
            use_type_invariant(self);
        }
        (self.preview_size - self.averaging_window) / 2
    }

    /// The row and column just after the averaged square.
    pub fn window_end(&self) -> (end: usize)
        ensures
            end == self.window_to(),
            self.wf(),
    {
        proof {
            use_type_invariant(self);
        }
        (self.preview_size - self.averaging_window) / 2 + self.averaging_window
    }

    /// The averaged square lies inside the preview and has the centre cell of
    /// the preview as its own centre.
    pub proof fn lemma_window_is_centred(self)
        requires
            self.wf(),
        ensures
            0 <= self.window_from() < self.window_to() <= self.preview(),
            self.window_from() == self.preview() / 2 - self.window() / 2,
            self.window_to() == self.preview() / 2 + self.window() / 2 + 1,
    {
    }
}

} // verus!
