//! Decoding of one fixed-size controller input report.
//!
//! A report is a snapshot of exactly 64 bytes. Byte 5 packs two nibbles:
//! the high nibble holds four independent face-button flags, the low
//! nibble holds a single 4-bit directional-pad code. Bit 5 of byte 6 is
//! the option/system button.

use vstd::prelude::*;

verus! {

/// Length every valid report has; buffers of any other length are rejected.
pub const REPORT_LEN: usize = 64;

/// A logical face button, used as a query key.
#[derive(Clone, Copy, Debug, PartialEq, Eq, Structural)]
pub enum Button {
    Square,
    Cross,
    Circle,
    Triangle,
}

/// A logical directional-pad position.
#[derive(Clone, Copy, Debug, PartialEq, Eq, Structural)]
pub enum DPad {
    Up,
    UpRight,
    UpLeft,
    Right,
    Down,
    DownRight,
    DownLeft,
    Left,
}

/// Why a report could not be constructed.
#[derive(Clone, Copy, Debug, PartialEq, Eq, Structural)]
pub enum ReportError {
    /// The buffer did not hold exactly `REPORT_LEN` bytes.
    MalformedReport,
}

/// The bit of byte 5's high nibble that signals the given face button.
pub open spec fn button_mask(button: Button) -> u8 {
    match button {
        Button::Square => 1u8,
        Button::Cross => 2u8,
        Button::Circle => 4u8,
        Button::Triangle => 8u8,
    }
}

/// Whether the given face button is flagged in the report bytes.
pub open spec fn button_pressed(bytes: Seq<u8>, button: Button) -> bool
    recommends
        bytes.len() == REPORT_LEN,
{
    (bytes[5] >> 4u8) & button_mask(button) != 0
}

/// The 4-bit code that the directional pad reports for the given position.
pub open spec fn dpad_code(dpad: DPad) -> u8 {
    match dpad {
        DPad::Up => 0u8,
        DPad::UpRight => 1u8,
        DPad::Right => 2u8,
        DPad::DownRight => 3u8,
        DPad::Down => 4u8,
        DPad::DownLeft => 5u8,
        DPad::Left => 6u8,
        DPad::UpLeft => 7u8,
    }
}

/// Whether the low nibble of byte 5 equals the given position's code.
pub open spec fn dpad_pressed(bytes: Seq<u8>, dpad: DPad) -> bool
    recommends
        bytes.len() == REPORT_LEN,
{
    bytes[5] & 0x0fu8 == dpad_code(dpad)
}

/// The directional-pad position a report decodes to: one of the eight
/// defined codes, or `None` for the neutral code 8 and the undefined
/// codes 9 through 15.
pub open spec fn dpad_of(bytes: Seq<u8>) -> Option<DPad>
    recommends
        bytes.len() == REPORT_LEN,
{
    let nybble = bytes[5] & 0x0fu8;
    if nybble == 0 {
        Some(DPad::Up)
    } else if nybble == 1 {
        Some(DPad::UpRight)
    } else if nybble == 2 {
        Some(DPad::Right)
    } else if nybble == 3 {
        Some(DPad::DownRight)
    } else if nybble == 4 {
        Some(DPad::Down)
    } else if nybble == 5 {
        Some(DPad::DownLeft)
    } else if nybble == 6 {
        Some(DPad::Left)
    } else if nybble == 7 {
        Some(DPad::UpLeft)
    } else {
        None
    }
}

/// Whether the option/system button (bit 5 of byte 6) is flagged.
pub open spec fn option_pressed(bytes: Seq<u8>) -> bool
    recommends
        bytes.len() == REPORT_LEN,
{
    bytes[6] & 32u8 != 0
}

/// The full logical state one report decodes to: four independent face
/// buttons, at most one directional-pad position, and the option button.
pub struct DecodedState {
    pub square: bool,
    pub cross: bool,
    pub circle: bool,
    pub triangle: bool,
    pub dpad: Option<DPad>,
    pub option: bool,
}

/// The decoded state of the given report bytes.
pub open spec fn decoded(bytes: Seq<u8>) -> DecodedState
    recommends
        bytes.len() == REPORT_LEN,
{
    DecodedState {
        square: button_pressed(bytes, Button::Square),
        cross: button_pressed(bytes, Button::Cross),
        circle: button_pressed(bytes, Button::Circle),
        triangle: button_pressed(bytes, Button::Triangle),
        dpad: dpad_of(bytes),
        option: option_pressed(bytes),
    }
}

/// An immutable snapshot of exactly 64 bytes read from the device.
pub struct Report {
    data: Vec<u8>,
}

impl Report {
    /// The bytes this report was constructed from.
    pub closed spec fn bytes(self) -> Seq<u8> {
        self.data@
    }

    #[verifier::type_invariant]
    spec fn wf(self) -> bool {
        self.data@.len() == REPORT_LEN
    }

    /// Constructs a report from a raw buffer, rejecting any buffer that
    /// does not hold exactly 64 bytes.
    pub fn from_bytes(data: Vec<u8>) -> (r: Result<Report, ReportError>)
        ensures
            data@.len() == REPORT_LEN ==> (r matches Ok(report) && report.bytes() == data@),
            data@.len() != REPORT_LEN ==> r == Err::<Report, ReportError>(
                ReportError::MalformedReport,
            ),
    {
        if data.len() == REPORT_LEN {
            Ok(Report { data })
        } else {
            Err(ReportError::MalformedReport)
        }
    }

    /// Tests the given face button's flag in the high nibble of byte 5.
    /// The flags are independent: any subset may be set at once.
    pub fn is_button_pressed(&self, button: Button) -> (r: bool)
        ensures
            r == button_pressed(self.bytes(), button),
    {
        proof {
            use_type_invariant(self);
        }
        let nybble = self.data[5] >> 4u8;
        match button {
            Button::Square => nybble & 1 != 0,
            Button::Cross => nybble & 2 != 0,
            Button::Circle => nybble & 4 != 0,
            Button::Triangle => nybble & 8 != 0,
        }
    }

    /// Tests whether the low nibble of byte 5 equals the given
    /// directional-pad position's code. Codes are mutually exclusive, so
    /// at most one position answers true per report.
    pub fn is_dpad_pressed(&self, dpad: DPad) -> (r: bool)
        ensures
            r == dpad_pressed(self.bytes(), dpad),
    {
        proof {
            use_type_invariant(self);
        }
        let nybble = self.data[5] & 0x0f;
        match dpad {
            DPad::Up => nybble == 0,
            DPad::UpRight => nybble == 1,
            DPad::Right => nybble == 2,
            DPad::DownRight => nybble == 3,
            DPad::Down => nybble == 4,
            DPad::DownLeft => nybble == 5,
            DPad::Left => nybble == 6,
            DPad::UpLeft => nybble == 7,
        }
    }

    /// The directional-pad position this report decodes to, with the
    /// neutral code (8) and all undefined codes (9 through 15) answered
    /// as `None`.
    pub fn dpad_direction(&self) -> (r: Option<DPad>)
        ensures
            r == dpad_of(self.bytes()),
    {
        proof {
            use_type_invariant(self);
        }
        let nybble = self.data[5] & 0x0f;
        if nybble == 0 {
            Some(DPad::Up)
        } else if nybble == 1 {
            Some(DPad::UpRight)
        } else if nybble == 2 {
            Some(DPad::Right)
        } else if nybble == 3 {
            Some(DPad::DownRight)
        } else if nybble == 4 {
            Some(DPad::Down)
        } else if nybble == 5 {
            Some(DPad::DownLeft)
        } else if nybble == 6 {
            Some(DPad::Left)
        } else if nybble == 7 {
            Some(DPad::UpLeft)
        } else {
            None
        }
    }

    /// Tests the option/system button: bit 5 of byte 6, independent of
    /// every other field.
    pub fn is_option_pressed(&self) -> (r: bool)
        ensures
            r == option_pressed(self.bytes()),
    {
        proof {
            use_type_invariant(self);
        }
        self.data[6] & 32 != 0
    }

    /// Decodes the whole logical state of this report at once.
    pub fn decode(&self) -> (s: DecodedState)
        ensures
            s == decoded(self.bytes()),
    {
        DecodedState {
            square: self.is_button_pressed(Button::Square),
            cross: self.is_button_pressed(Button::Cross),
            circle: self.is_button_pressed(Button::Circle),
            triangle: self.is_button_pressed(Button::Triangle),
            dpad: self.dpad_direction(),
            option: self.is_option_pressed(),
        }
    }
}

/// A face-button query depends only on the high nibble of byte 5: two
/// reports that agree there answer every button query alike, whatever
/// their other bytes hold.
pub proof fn lemma_button_depends_on_high_nibble(a: Seq<u8>, b: Seq<u8>, button: Button)
    requires
        a.len() == REPORT_LEN,
        b.len() == REPORT_LEN,
        a[5] >> 4u8 == b[5] >> 4u8,
    ensures
        button_pressed(a, button) == button_pressed(b, button),
{
}

/// The directional-pad codes are mutually exclusive: a per-position query
/// answers true exactly when the report decodes to that position, every
/// defined code (0 through 7) decodes to its one position, and the
/// neutral and undefined codes (8 through 15) decode to none.
pub proof fn lemma_dpad_exclusive(bytes: Seq<u8>)
    requires
        bytes.len() == REPORT_LEN,
    ensures
        forall|d: DPad| #[trigger] dpad_pressed(bytes, d) <==> dpad_of(bytes) == Some(d),
        bytes[5] & 0x0fu8 <= 7 ==> dpad_of(bytes) is Some,
        bytes[5] & 0x0fu8 >= 8 ==> dpad_of(bytes) is None,
{
}

/// The option-button query depends only on bit 5 of byte 6: two reports
/// that agree on that bit answer it alike, whatever else they hold.
pub proof fn lemma_option_depends_on_bit(a: Seq<u8>, b: Seq<u8>)
    requires
        a.len() == REPORT_LEN,
        b.len() == REPORT_LEN,
        a[6] & 32u8 == b[6] & 32u8,
    ensures
        option_pressed(a) == option_pressed(b),
{
}

} // verus!
