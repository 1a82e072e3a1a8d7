//! Screen geometry: the viewport (scroll offsets plus drawing dimensions),
//! the on-screen cursor, and the terminal state that composes the two.
//!
//! Scrolling is reactive: a move names the buffer-space position it wants,
//! and the viewport shifts only by the overflow needed to keep that position
//! inside the drawing rectangle. This is the single translation between
//! screen-space and buffer-space coordinates; nothing else moves the offsets.

use vstd::prelude::*;

verus! {

/// Rows the terminal reserves outside the drawing region: a title line and a
/// ruler above it, a ruler and a status line below.
pub const RESERVED_ROWS: u16 = 4;

/// The scroll offset after clamping an axis so that buffer position `target`
/// is visible in a window of `size` cells starting at `off`: unchanged when
/// `target` is already visible, otherwise shifted by exactly the overflow.
pub open spec fn clamped_offset(off: nat, size: nat, target: nat) -> nat {
    if target < off {
        target
    } else if target < off + size {
        off
    } else {
        (target - (size - 1)) as nat
    }
}

/// The screen coordinate that `target` lands on after the clamp: the distance
/// from the clamped offset, at most `size - 1`.
pub open spec fn clamped_screen(off: nat, size: nat, target: nat) -> nat {
    if target < off {
        0
    } else if target < off + size {
        (target - off) as nat
    } else {
        (size - 1) as nat
    }
}

/// The clamp is exact: offset and screen coordinate always add back up to the
/// requested buffer position, and the screen coordinate stays in the window.
pub proof fn lemma_clamp_exact(off: nat, size: nat, target: nat)
    requires
        size >= 1,
    ensures
        clamped_offset(off, size, target) + clamped_screen(off, size, target) == target,
        clamped_screen(off, size, target) < size,
{
}

/// The visible rectangle: scroll offsets into the document plus the fixed
/// width and height of the drawing region.
pub struct Viewport {
    pub column_offset: usize,
    pub row_offset: usize,
    pub width: usize,
    pub height: usize,
}

impl Viewport {
    /// A drawable viewport has at least one cell in each direction.
    pub open spec fn wf(&self) -> bool {
        self.width >= 1 && self.height >= 1
    }

    /// Scrolls horizontally just enough that buffer column `target` is
    /// visible, and returns the screen column it lands on.
    pub fn scroll_to_col(&mut self, target: usize) -> (screen_x: usize)
        requires
            old(self).wf(),
        ensures
            final(self).column_offset == clamped_offset(
                old(self).column_offset as nat,
                old(self).width as nat,
                target as nat,
            ),
            screen_x == clamped_screen(
                old(self).column_offset as nat,
                old(self).width as nat,
                target as nat,
            ),
            final(self).column_offset + screen_x == target,
            screen_x < old(self).width,
            final(self).row_offset == old(self).row_offset,
            final(self).width == old(self).width,
            final(self).height == old(self).height,
    {
        if target < self.column_offset {
            self.column_offset = target;
            0
        } else if target - self.column_offset < self.width {
            target - self.column_offset
        } else {
            self.column_offset = target - (self.width - 1);
            self.width - 1
        }
    }

    /// Scrolls vertically just enough that buffer row `target` is visible,
    /// and returns the screen row it lands on.
    pub fn scroll_to_row(&mut self, target: usize) -> (screen_y: usize)
        requires
            old(self).wf(),
        ensures
            final(self).row_offset == clamped_offset(
                old(self).row_offset as nat,
                old(self).height as nat,
                target as nat,
            ),
            screen_y == clamped_screen(
                old(self).row_offset as nat,
                old(self).height as nat,
                target as nat,
            ),
            final(self).row_offset + screen_y == target,
            screen_y < old(self).height,
            final(self).column_offset == old(self).column_offset,
            final(self).width == old(self).width,
            final(self).height == old(self).height,
    {
        if target < self.row_offset {
            self.row_offset = target;
            0
        } else if target - self.row_offset < self.height {
            target - self.row_offset
        } else {
            self.row_offset = target - (self.height - 1);
            self.height - 1
        }
    }
}

/// The on-screen cursor: coordinates within the drawing region, plus the
/// remembered column that vertical movement tries to return to.
pub struct Cursor {
    pub screen_x: usize,
    pub screen_y: usize,
    pub preferred_column: usize,
}

/// Terminal state: the viewport, the cursor inside it, and the display name.
pub struct Terminal {
    pub name: String,
    pub viewport: Viewport,
    pub cursor: Cursor,
}

impl Terminal {
    /// The cursor stays inside the drawing rectangle of a drawable viewport.
    pub open spec fn wf(&self) -> bool {
        &&& self.viewport.wf()
        &&& self.cursor.screen_x < self.viewport.width
        &&& self.cursor.screen_y < self.viewport.height
    }

    /// The buffer-space column the cursor denotes.
    pub open spec fn buffer_col(&self) -> int {
        self.viewport.column_offset + self.cursor.screen_x
    }

    /// The buffer-space row the cursor denotes.
    pub open spec fn buffer_row(&self) -> int {
        self.viewport.row_offset + self.cursor.screen_y
    }

    /// Fresh terminal state for a terminal of `size` cells: the drawing
    /// region is the full width and the height minus the reserved rows, with
    /// the cursor at the origin and nothing scrolled.
    pub fn new(size: (u16, u16), name: String) -> (term: Terminal)
        requires
            size.0 >= 1,
            size.1 > RESERVED_ROWS,
        ensures
            term.name == name,
            term.viewport.width == size.0 as usize,
            term.viewport.height == size.1 - RESERVED_ROWS,
            term.viewport.column_offset == 0,
            term.viewport.row_offset == 0,
            term.cursor.screen_x == 0,
            term.cursor.screen_y == 0,
            term.cursor.preferred_column == 0,
            term.wf(),
    {
        Terminal {
            name,
            viewport: Viewport {
                column_offset: 0,
                row_offset: 0,
                width: size.0 as usize,
                height: (size.1 - RESERVED_ROWS) as usize,
            },
            cursor: Cursor { screen_x: 0, screen_y: 0, preferred_column: 0 },
        }
    }

    /// Moves the cursor by a screen-space delta: the buffer position changes
    /// by exactly the delta, and the viewport scrolls by the overflow where
    /// the move would leave the drawing rectangle.
    pub fn move_relative(&mut self, relx: i16, rely: i16)
        requires
            old(self).wf(),
            0 <= old(self).buffer_col() + relx <= usize::MAX,
            0 <= old(self).buffer_row() + rely <= usize::MAX,
            old(self).buffer_col() <= usize::MAX,
            old(self).buffer_row() <= usize::MAX,
        ensures
            final(self).buffer_col() == old(self).buffer_col() + relx,
            final(self).buffer_row() == old(self).buffer_row() + rely,
            final(self).viewport.column_offset == clamped_offset(
                old(self).viewport.column_offset as nat,
                old(self).viewport.width as nat,
                (old(self).buffer_col() + relx) as nat,
            ),
            final(self).cursor.screen_x == clamped_screen(
                old(self).viewport.column_offset as nat,
                old(self).viewport.width as nat,
                (old(self).buffer_col() + relx) as nat,
            ),
            final(self).viewport.row_offset == clamped_offset(
                old(self).viewport.row_offset as nat,
                old(self).viewport.height as nat,
                (old(self).buffer_row() + rely) as nat,
            ),
            final(self).cursor.screen_y == clamped_screen(
                old(self).viewport.row_offset as nat,
                old(self).viewport.height as nat,
                (old(self).buffer_row() + rely) as nat,
            ),
            final(self).wf(),
            final(self).viewport.width == old(self).viewport.width,
            final(self).viewport.height == old(self).viewport.height,
            final(self).cursor.preferred_column == old(self).cursor.preferred_column,
            final(self).name == old(self).name,
    {
        let col = self.viewport.column_offset + self.cursor.screen_x;
        let row = self.viewport.row_offset + self.cursor.screen_y;
        let target_col = if relx >= 0 {
            col + (relx as usize)
        } else {
            col - ((-(relx as i32)) as usize)
        };
        let target_row = if rely >= 0 {
            row + (rely as usize)
        } else {
            row - ((-(rely as i32)) as usize)
        };
        self.cursor.screen_x = self.viewport.scroll_to_col(target_col);
        self.cursor.screen_y = self.viewport.scroll_to_row(target_row);
    }
}

} // verus!

