//! Screen geometry of the dispenser's display: where the status bar, the
//! payment code and the texts go.

use vstd::prelude::*;

verus! {

pub const DISPLAY_WIDTH: u32 = 128;

pub const DISPLAY_HEIGHT: u32 = 160;

pub const STATUS_BAR_HEIGHT: u32 = 13;

/// Width in pixels of one glyph of the display font.
pub const GLYPH_WIDTH: u32 = 6;

/// Whether the dispenser is connected to its backend.
#[derive(Debug, Clone, Copy, PartialEq, Eq)]
pub enum ConnectionStatus {
    Connected,
    Disconnected,
}

/// What the status bar at the top of the screen shows.
#[derive(Debug, PartialEq, Eq)]
pub struct StatusBar {
    pub height: u32,
    pub ip_address: String,
    pub connection_status: ConnectionStatus,
}

impl StatusBar {
    /// A status bar showing `ip_address`, not yet connected.
    pub fn new(ip_address: String) -> (r: StatusBar)
        ensures
            r.height == STATUS_BAR_HEIGHT,
            r.ip_address == ip_address,
            r.connection_status == ConnectionStatus::Disconnected,
    {
        StatusBar { height: STATUS_BAR_HEIGHT, ip_address, connection_status: ConnectionStatus::Disconnected }
    }

    pub fn update_ip(&mut self, ip: String)
        ensures
            final(self).ip_address == ip,
            final(self).height == old(self).height,
            final(self).connection_status == old(self).connection_status,
    {
        self.ip_address = ip;
    }

    pub fn set_connection_status(&mut self, status: ConnectionStatus)
        ensures
            final(self).connection_status == status,
            final(self).height == old(self).height,
            final(self).ip_address == old(self).ip_address,
    {
        self.connection_status = status;
    }

    /// The one-glyph indicator of the connection status: `*` when connected,
    /// `o` when not.
    pub fn status_glyph(&self) -> (r: &'static str)
        ensures
            r@ == (if self.connection_status == ConnectionStatus::Connected {
                seq!['*']
            } else {
                seq!['o']
            }),
    {
        proof {
            reveal_strlit("*");
            reveal_strlit("o");
        }
        match self.connection_status {
            ConnectionStatus::Connected => "*",
            ConnectionStatus::Disconnected => "o",
        }
    }
}

/// Where the parts of the invoice screen go.
#[derive(Debug, Clone, Copy, PartialEq, Eq)]
pub struct DisplayLayout {
    /// The side of the square given to the payment code.
    pub qr_size: u32,
    /// The top of the payment code.
    pub qr_y_offset: u32,
    /// The baseline of the amount, below the payment code.
    pub amount_y: u32,
    pub status_bar_height: u32,
}

impl DisplayLayout {
    /// The layout of the invoice screen: the code fills the width but for a
    /// 2-pixel margin on each side, starts 4 pixels below the status bar, and
    /// the amount stands 8 pixels below it.
    pub fn new() -> (r: DisplayLayout)
        ensures
            r.status_bar_height == STATUS_BAR_HEIGHT,
            r.qr_size == DISPLAY_WIDTH - 4,
            r.qr_y_offset == STATUS_BAR_HEIGHT + 4,
            r.amount_y == r.qr_y_offset + r.qr_size + 8,
    {
        let status_bar_height = STATUS_BAR_HEIGHT;
        let qr_size = DISPLAY_WIDTH - 4;
        let qr_y_offset = status_bar_height + 4;
        let amount_y = qr_y_offset + qr_size + 8;
        DisplayLayout { qr_size, qr_y_offset, amount_y, status_bar_height }
    }
}

/// The left edge of a text of `text_len` glyphs centred on the screen.
pub fn centered_text_x(text_len: usize) -> (r: i32)
    requires
        text_len * GLYPH_WIDTH <= DISPLAY_WIDTH,
    ensures
        r == (DISPLAY_WIDTH - text_len * GLYPH_WIDTH) / 2,
{
    ((DISPLAY_WIDTH - (text_len as u32) * GLYPH_WIDTH) / 2) as i32
}

/// The left edge of a text of `text_len` glyphs that ends 2 pixels from the
/// right edge of the screen; negative when the text is wider than the screen.
pub fn right_aligned_text_x(text_len: usize) -> (r: i32)
    requires
        text_len * GLYPH_WIDTH <= i32::MAX,
    ensures
        r == DISPLAY_WIDTH - text_len * GLYPH_WIDTH - 2,
{
    DISPLAY_WIDTH as i32 - (text_len as i32) * (GLYPH_WIDTH as i32) - 2
}

/// The left edge of an image of side `side` centred on the screen.
pub fn centered_image_x(side: u32) -> (r: u32)
    requires
        side <= DISPLAY_WIDTH,
    ensures
        r == (DISPLAY_WIDTH - side) / 2,
{
    (DISPLAY_WIDTH - side) / 2
}

} // verus!
