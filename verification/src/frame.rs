//! The frame of the window: the part of it that the window is dragged by, and its buttons.
use vstd::prelude::*;

use crate::app::App;

verus! {

/// The message by which the system asks what is under the pointer.
pub const WM_NCHITTEST: u32 = 0x0084;

/// The message by which the system tells that the window is gone.
pub const WM_NCDESTROY: u32 = 0x0082;

/// How close two clicks have to be to count as one double click, in nanoseconds.
pub const DOUBLE_CLICK_INTERVAL_NANOS: u128 = 350_000_000;

/// A rectangle in whole pixels.
#[derive(Clone, Copy, Debug, PartialEq, Eq, Structural)]
pub struct PixelRect {
    pub x: i32,
    pub y: i32,
    pub width: i32,
    pub height: i32,
}

impl PixelRect {
    /// Whether a point is inside. The right and the lower edge are not.
    pub open spec fn has(self, x: int, y: int) -> bool {
        &&& self.x <= x < self.x + self.width
        &&& self.y <= y < self.y + self.height
    }
}

/// What becomes of a message of the system.
#[derive(Clone, Copy, Debug, PartialEq, Eq, Structural)]
pub enum MessageAction {
    /// Answer that the pointer is on the title bar.
    Caption,
    /// Stop listening and hand the message on.
    RemoveAndForward,
    /// Hand the message on.
    Forward,
}

/// What becomes of a click.
#[derive(Clone, Copy, Debug, PartialEq, Eq, Structural)]
pub enum ClickAction {
    /// It is none of the frame's business.
    Propagate,
    /// Drag the window.
    Drag,
    /// Maximise the window, or undo that.
    ToggleMaximized,
}

/// A change of the window.
#[derive(Clone, Copy, Debug, PartialEq, Eq, Structural)]
pub enum WindowChange {
    SetMaximized(bool),
    SetResizable(bool),
}

/// What becomes of a message. `corner` is the upper left corner of the window, if it is known,
/// and `title` the title bar, if it has been set up.
pub open spec fn action_on(
    msg: u32,
    x_screen: int,
    y_screen: int,
    corner: Option<(i32, i32)>,
    title: Option<PixelRect>,
) -> MessageAction {
    if msg == WM_NCHITTEST && title is Some && corner is Some && (title->0).has(
        x_screen - (corner->0).0,
        y_screen - (corner->0).1,
    ) {
        MessageAction::Caption
    } else if msg == WM_NCDESTROY {
        MessageAction::RemoveAndForward
    } else {
        MessageAction::Forward
    }
}

/// What becomes of a click.
pub open spec fn click_action(on_title_bar: bool, since_last: Option<u128>) -> ClickAction {
    if !on_title_bar {
        ClickAction::Propagate
    } else if since_last is Some && since_last->0 <= DOUBLE_CLICK_INTERVAL_NANOS {
        ClickAction::ToggleMaximized
    } else {
        ClickAction::Drag
    }
}

/// The signed number whose 16 bits are the lowest ones of another number.
pub open spec fn signed_16(n: int) -> int {
    let low = n % 0x1_0000;
    if low < 0x8000 {
        low
    } else {
        low - 0x1_0000
    }
}

/// The column of the pointer: the lower half of what comes with the message, read as a signed
/// number of 16 bits.
pub fn get_x_lparam(lp: isize) -> (x: i32)
    ensures
        x == signed_16(lp as int),
{
    let wide: i64 = lp as i64;
    let x: i32 = (wide as i32 as i16) as i32;
    proof {
        let bits: u64 = wide as u64;
        lemma_bits(wide);
        assert((bits % 0x1_0000 < 0x8000 ==> x == bits % 0x1_0000) && (bits % 0x1_0000 >= 0x8000
            ==> x == bits % 0x1_0000 - 0x1_0000)) by (bit_vector)
            requires
                x == (wide as i32 as i16) as i32,
                bits == wide as u64,
        ;
    }
    x
}

/// The row of the pointer: the half above that, read in the same way.
pub fn get_y_lparam(lp: isize) -> (y: i32)
    ensures
        y == signed_16(lp as int / 0x1_0000),
{
    let wide: i64 = lp as i64;
    let y: i32 = ((wide as i32 >> 16) as i16) as i32;
    proof {
        let bits: u64 = wide as u64;
        lemma_bits(wide);
        assert(((bits / 0x1_0000) % 0x1_0000 < 0x8000 ==> y == (bits / 0x1_0000) % 0x1_0000) && (
        (bits / 0x1_0000) % 0x1_0000 >= 0x8000 ==> y == (bits / 0x1_0000) % 0x1_0000
            - 0x1_0000)) by (bit_vector)
            requires
                y == ((wide as i32 >> 16) as i16) as i32,
                bits == wide as u64,
        ;
    }
    y
}

proof fn lemma_bits(wide: i64)
    ensures
        wide as u64 == (if wide < 0 {
            wide + 0x1_0000_0000_0000_0000
        } else {
            wide as int
        }),
{
    assert(wide < 0 ==> wide as u64 == wide + 0x1_0000_0000_0000_0000) by (bit_vector);
}

/// Whether a point in the window is inside a rectangle.
fn is_inside(rect: PixelRect, x: i64, y: i64) -> (inside: bool)
    ensures
        inside == rect.has(x as int, y as int),
{
    let left: i64 = rect.x as i64;
    let top: i64 = rect.y as i64;
    x >= left && x < left + rect.width as i64 && y >= top && y < top + rect.height as i64
}

impl App {
    /// Decides what becomes of a message of the system.
    pub fn window_message(
        msg: u32,
        x_screen: i32,
        y_screen: i32,
        corner: Option<(i32, i32)>,
        title: Option<PixelRect>,
    ) -> (action: MessageAction)
        ensures
            action == action_on(msg, x_screen as int, y_screen as int, corner, title),
    {
        if msg == WM_NCHITTEST {
            if let (Some(title), Some((left, top))) = (title, corner) {
                let x: i64 = x_screen as i64 - left as i64;
                let y: i64 = y_screen as i64 - top as i64;
                if is_inside(title, x, y) {
                    return MessageAction::Caption;
                }
            }
        }
        if msg == WM_NCDESTROY {
            return MessageAction::RemoveAndForward;
        }
        MessageAction::Forward
    }

    /// Decides what becomes of a click. `since_last` is how long ago the title bar was clicked
    /// before, in nanoseconds, if it was.
    pub fn title_bar_click(on_title_bar: bool, since_last: Option<u128>) -> (action: ClickAction)
        ensures
            action == click_action(on_title_bar, since_last),
            action == (if !on_title_bar {
                ClickAction::Propagate
            } else if since_last is Some && since_last->0 <= DOUBLE_CLICK_INTERVAL_NANOS {
                ClickAction::ToggleMaximized
            } else {
                ClickAction::Drag
            }),
    {
        if !on_title_bar {
            return ClickAction::Propagate;
        }
        match since_last {
            Some(nanos) => {
                if nanos <= DOUBLE_CLICK_INTERVAL_NANOS {
                    ClickAction::ToggleMaximized
                } else {
                    ClickAction::Drag
                }
            },
            None => ClickAction::Drag,
        }
    }

    /// What the button for maximising does, one after the other.
    pub fn maximize(is_maximized: bool) -> (changes: Vec<WindowChange>)
        ensures
            changes@ == (if is_maximized {
                seq![WindowChange::SetMaximized(false), WindowChange::SetResizable(true)]
            } else {
                seq![
                    WindowChange::SetMaximized(true),
                    WindowChange::SetResizable(false),
                    WindowChange::SetResizable(true),
                ]
            }),
    {
        let mut changes: Vec<WindowChange> = Vec::new();
        if is_maximized {
            changes.push(WindowChange::SetMaximized(false));
        } else {
            changes.push(WindowChange::SetMaximized(true));
            changes.push(WindowChange::SetResizable(false));
        }
        changes.push(WindowChange::SetResizable(true));
        changes
    }
}

/// The title bar is what the pointer is on when it asks and stands inside the rectangle, counted
/// from the corner of the window; the left and the upper edge belong to it, the right and the
/// lower one do not. The last message removes the listener, and everything else is handed on.
pub proof fn lemma_when_the_pointer_is_on_the_title_bar(
    msg: u32,
    x: int,
    y: int,
    corner: (i32, i32),
    title: PixelRect,
)
    ensures
        action_on(msg, x, y, Some(corner), Some(title)) == MessageAction::Caption <==> msg == 0x0084
            && title.x <= x - corner.0 && x - corner.0 < title.x + title.width && title.y <= y
            - corner.1 && y - corner.1 < title.y + title.height,
        action_on(msg, x, y, None, Some(title)) != MessageAction::Caption,
        action_on(msg, x, y, Some(corner), None) != MessageAction::Caption,
        action_on(msg, x, y, Some(corner), Some(title)) == MessageAction::RemoveAndForward <==> msg
            == 0x0082,
        action_on(msg, x, y, None, None) == (if msg == 0x0082 {
            MessageAction::RemoveAndForward
        } else {
            MessageAction::Forward
        }),
{
}

/// Sixteen bits stand for the numbers from -32768 to 32767, and the number is that of the lowest
/// sixteen bits.
pub proof fn lemma_sixteen_bits_are_signed(n: int)
    ensures
        -0x8000 <= signed_16(n) < 0x8000,
        (n - signed_16(n)) % 0x1_0000 == 0,
        -0x8000 <= n < 0x8000 ==> signed_16(n) == n,
{
}

/// A click beside the title bar is none of its business. One on it drags the window, and a second
/// one within 350 milliseconds maximises it or undoes that.
pub proof fn lemma_what_becomes_of_a_click(on_title_bar: bool, since_last: Option<u128>)
    ensures
        !on_title_bar <==> click_action(on_title_bar, since_last) == ClickAction::Propagate,
        on_title_bar && since_last is None ==> click_action(on_title_bar, since_last)
            == ClickAction::Drag,
        on_title_bar ==> (since_last matches Some(nanos) ==> click_action(on_title_bar, since_last)
            == (if nanos <= 350_000_000 {
            ClickAction::ToggleMaximized
        } else {
            ClickAction::Drag
        })),
{
}

} // verus!
