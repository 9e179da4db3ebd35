//! Decoder for the remote-controller (RC) telemetry record.

use vstd::prelude::*;
use crate::bytes::{le16_at, read_u16_le};
use crate::codec::{spec_sub_byte_field, sub_byte_field};
use crate::product::ProductType;
use crate::record::RecordError;

verus! {

/// Fixed size of an RC payload: five 2-byte raw stick values, three
/// bit-packed bytes, two trailing raw bytes.
pub const RC_PAYLOAD_SIZE: usize = 15;

/// Semantic position of the physical 3-position flight-mode switch.
#[derive(Debug, Clone, Copy, PartialEq, Eq, Structural)]
pub enum FlightModeSwitch {
    /// Position one. For all products except the Mavic Pro generation this is
    /// the leftmost switch position from the pilot's perspective; on that
    /// generation it is the position furthest from the pilot.
    One,
    /// Position two: the middle position, or the position closest to the
    /// pilot on the Mavic Pro generation.
    Two,
    /// Position three: the rightmost position; the Mavic Pro generation has
    /// no third position.
    Three,
    /// A raw value outside the three labelled positions, after remapping.
    Unknown(u8),
}

/// The hardware remap applied before labelling: the Mavic Pro generation
/// reads its switch through the fixed permutation 0 -> 2, 1 -> 3, 2 -> 1,
/// values outside that domain passing through; every other product reads the
/// raw value unchanged.
pub open spec fn spec_switch_remap(value: u8, product_type: ProductType) -> u8 {
    if product_type == ProductType::MavicPro {
        if value == 0 {
            2
        } else if value == 1 {
            3
        } else if value == 2 {
            1
        } else {
            value
        }
    } else {
        value
    }
}

/// The switch position for a raw sample: remap for the hardware generation,
/// then label 0 as One, 1 as Two, 2 as Three, and anything else as Unknown of
/// the remapped value.
pub open spec fn spec_flight_mode_switch(value: u8, product_type: ProductType) -> FlightModeSwitch {
    let mapped = spec_switch_remap(value, product_type);
    if mapped == 0 {
        FlightModeSwitch::One
    } else if mapped == 1 {
        FlightModeSwitch::Two
    } else if mapped == 2 {
        FlightModeSwitch::Three
    } else {
        FlightModeSwitch::Unknown(mapped)
    }
}

impl FlightModeSwitch {
    /// Labels a raw switch sample under the given hardware context.
    pub fn from(value: u8, product_type: ProductType) -> (r: Self)
        ensures
            r == spec_flight_mode_switch(value, product_type),
    {
        let mapped_value = match product_type {
            ProductType::MavicPro => match value {
                0 => 2,
                1 => 3,
                2 => 1,
                _ => value,
            },
            _ => value,
        };
        match mapped_value {
            0 => FlightModeSwitch::One,
            1 => FlightModeSwitch::Two,
            2 => FlightModeSwitch::Three,
            other => FlightModeSwitch::Unknown(other),
        }
    }
}

/// A decoded RC record. The stick channels hold the raw unsigned samples,
/// centred at 1024 by the hardware; turning a raw sample into a calibrated
/// floating-point reading is left to unverified callers. The discrete fields
/// are views into the three bit-packed bytes, in their fixed layout.
#[derive(Debug, Clone, Copy, PartialEq, Eq, Structural)]
pub struct RC {
    /// Right stick, horizontal: raw sample.
    pub aileron: u16,
    /// Right stick, vertical: raw sample.
    pub elevator: u16,
    /// Left stick, vertical: raw sample.
    pub throttle: u16,
    /// Left stick, horizontal: raw sample.
    pub rudder: u16,
    /// Gimbal dial: raw sample.
    pub gimbal: u16,
    pub wheel_btn_down: u8,
    pub wheel_offset: u8,
    pub wheel_polarity: u8,
    pub wheel_change: u8,
    pub transform_btn_reserve: u8,
    pub return_btn: u8,
    pub flight_mode_switch: FlightModeSwitch,
    pub transform_switch: u8,
    pub custom_function_btn4_down: u8,
    pub custom_function_btn3_down: u8,
    pub custom_function_btn2_down: u8,
    pub custom_function_btn1_down: u8,
    pub playback_btn_down: u8,
    pub shutter_btn_down: u8,
    pub record_btn_down: u8,
    pub bandwidth: u8,
    pub gimbal_control_enable: u8,
}

/// The RC payload layout, field by field: five little-endian 16-bit raw
/// sticks at offsets 0 to 8, the bit fields of the packed bytes at 10, 11
/// and 12 under their fixed masks, and the two trailing raw bytes.
pub open spec fn spec_parse_rc(s: Seq<u8>, product_type: ProductType) -> RC {
    RC {
        aileron: le16_at(s, 0) as u16,
        elevator: le16_at(s, 2) as u16,
        throttle: le16_at(s, 4) as u16,
        rudder: le16_at(s, 6) as u16,
        gimbal: le16_at(s, 8) as u16,
        wheel_btn_down: spec_sub_byte_field(s[10], 0x01),
        wheel_offset: spec_sub_byte_field(s[10], 0x3E),
        wheel_polarity: spec_sub_byte_field(s[10], 0x40),
        wheel_change: spec_sub_byte_field(s[10], 0x80),
        transform_btn_reserve: spec_sub_byte_field(s[11], 0x07),
        return_btn: spec_sub_byte_field(s[11], 0x08),
        flight_mode_switch: spec_flight_mode_switch(
            spec_sub_byte_field(s[11], 0x30),
            product_type,
        ),
        transform_switch: spec_sub_byte_field(s[11], 0xC0),
        custom_function_btn4_down: spec_sub_byte_field(s[12], 0x02),
        custom_function_btn3_down: spec_sub_byte_field(s[12], 0x04),
        custom_function_btn2_down: spec_sub_byte_field(s[12], 0x08),
        custom_function_btn1_down: spec_sub_byte_field(s[12], 0x10),
        playback_btn_down: spec_sub_byte_field(s[12], 0x20),
        shutter_btn_down: spec_sub_byte_field(s[12], 0x40),
        record_btn_down: spec_sub_byte_field(s[12], 0x80),
        bandwidth: s[13],
        gimbal_control_enable: s[14],
    }
}

impl RC {
    /// Decodes an RC payload in one fixed left-to-right pass. A payload
    /// shorter than the fixed layout fails the whole record recoverably: no
    /// partial value is produced.
    pub fn parse(payload: &Vec<u8>, product_type: ProductType) -> (r: Result<RC, RecordError>)
        ensures
            payload@.len() >= RC_PAYLOAD_SIZE ==> r == Ok::<RC, RecordError>(
                spec_parse_rc(payload@, product_type),
            ),
            payload@.len() < RC_PAYLOAD_SIZE ==> r == Err::<RC, RecordError>(
                RecordError::TruncatedPayload,
            ),
    {
        if payload.len() < RC_PAYLOAD_SIZE {
            return Err(RecordError::TruncatedPayload);
        }
        let aileron = read_u16_le(payload, 0);
        let elevator = read_u16_le(payload, 2);
        let throttle = read_u16_le(payload, 4);
        let rudder = read_u16_le(payload, 6);
        let gimbal = read_u16_le(payload, 8);
        let bitpack1 = payload[10];
        let bitpack2 = payload[11];
        let bitpack3 = payload[12];
        Ok(
            RC {
                aileron,
                elevator,
                throttle,
                rudder,
                gimbal,
                wheel_btn_down: sub_byte_field(bitpack1, 0x01),
                wheel_offset: sub_byte_field(bitpack1, 0x3E),
                wheel_polarity: sub_byte_field(bitpack1, 0x40),
                wheel_change: sub_byte_field(bitpack1, 0x80),
                transform_btn_reserve: sub_byte_field(bitpack2, 0x07),
                return_btn: sub_byte_field(bitpack2, 0x08),
                flight_mode_switch: FlightModeSwitch::from(
                    sub_byte_field(bitpack2, 0x30),
                    product_type,
                ),
                transform_switch: sub_byte_field(bitpack2, 0xC0),
                custom_function_btn4_down: sub_byte_field(bitpack3, 0x02),
                custom_function_btn3_down: sub_byte_field(bitpack3, 0x04),
                custom_function_btn2_down: sub_byte_field(bitpack3, 0x08),
                custom_function_btn1_down: sub_byte_field(bitpack3, 0x10),
                playback_btn_down: sub_byte_field(bitpack3, 0x20),
                shutter_btn_down: sub_byte_field(bitpack3, 0x40),
                record_btn_down: sub_byte_field(bitpack3, 0x80),
                bandwidth: payload[13],
                gimbal_control_enable: payload[14],
            },
        )
    }
}

} // verus!
