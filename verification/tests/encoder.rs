use spirant::encoder::encoder_board::{
    interrupt_enable_register, interrupt_flag_register, position_register,
};
use spirant::encoder::registers::{
    ENCODER_INT_SET, ENCODER_POSITION, MODULE_ENCODER, MODULE_GPIO, SEESAW_DELAY_US, STATUS_INTFLAG,
};
use spirant::encoder::seesaw::{decode_i32, encode_write_i32, encode_write_u8};
use spirant::encoder::{
    EncoderError, EncoderUpdateProcessor, QuadEncoderBoard, SeesawDriver, DEFAULT_ADDRESS,
    ENCODER_COUNT,
};
use spirant::parameter_values::{ParameterSlot, ParameterValues};

// ── Registers ────────────────────────────────────────────────────

#[test]
fn register_constants() {
    assert_eq!(MODULE_GPIO, 0x01);
    assert_eq!(MODULE_ENCODER, 0x11);
    assert_eq!(STATUS_INTFLAG, 0x0A);
    assert_eq!(ENCODER_POSITION, 0x30);
    assert_eq!(ENCODER_INT_SET, 0x10);
    assert_eq!(SEESAW_DELAY_US, 125);
    assert_eq!(DEFAULT_ADDRESS, 0x49);
    assert_eq!(ENCODER_COUNT, 4);
}

#[test]
fn position_register_by_encoder() {
    for encoder in 0..4u8 {
        let register = position_register::<()>(encoder).unwrap();
        assert_eq!(register, [0x11, 0x30 + encoder]);
    }
}

#[test]
fn position_register_rejects_bad_index() {
    assert!(matches!(position_register::<()>(4), Err(EncoderError::InvalidEncoder)));
    assert!(matches!(position_register::<()>(255), Err(EncoderError::InvalidEncoder)));
}

#[test]
fn interrupt_enable_register_by_encoder() {
    for encoder in 0..4u8 {
        let register = interrupt_enable_register::<()>(encoder).unwrap();
        assert_eq!(register, [0x11, 0x10 + encoder]);
    }
    assert!(matches!(interrupt_enable_register::<()>(4), Err(EncoderError::InvalidEncoder)));
}

#[test]
fn interrupt_flag_register_is_in_the_status_module() {
    assert_eq!(interrupt_flag_register(), [0x01, 0x0A]);
}

#[test]
fn bus_error_becomes_i2c_error() {
    let error: EncoderError<u8> = EncoderError::from(7u8);
    assert!(matches!(error, EncoderError::I2c(7)));
    fn carry(res: Result<(), u8>) -> Result<(), EncoderError<u8>> {
        res?;
        Ok(())
    }
    assert!(matches!(carry(Err(3)), Err(EncoderError::I2c(3))));
    assert!(carry(Ok(())).is_ok());
}

// ── Frames ───────────────────────────────────────────────────────

#[test]
fn decode_i32_is_big_endian() {
    assert_eq!(decode_i32([0, 0, 0, 0]), 0);
    assert_eq!(decode_i32([0, 0, 0, 1]), 1);
    assert_eq!(decode_i32([0, 0, 1, 2]), 258);
    assert_eq!(decode_i32([0x12, 0x34, 0x56, 0x78]), 0x1234_5678);
    assert_eq!(decode_i32([0xff, 0xff, 0xff, 0xff]), -1);
    assert_eq!(decode_i32([0xff, 0xff, 0xff, 0xfe]), -2);
    assert_eq!(decode_i32([0x7f, 0xff, 0xff, 0xff]), i32::MAX);
    assert_eq!(decode_i32([0x80, 0, 0, 0]), i32::MIN);
}

#[test]
fn decode_i32_agrees_with_std() {
    for buf in [[1u8, 2, 3, 4], [0xde, 0xad, 0xbe, 0xef], [0x80, 0, 0, 1], [0, 0xff, 0, 0xff]] {
        assert_eq!(decode_i32(buf), i32::from_be_bytes(buf));
    }
}

#[test]
fn encode_write_i32_frames_register_and_value() {
    assert_eq!(encode_write_i32([0x11, 0x30], 0), [0x11, 0x30, 0, 0, 0, 0]);
    assert_eq!(encode_write_i32([0x11, 0x31], 1), [0x11, 0x31, 0, 0, 0, 1]);
    assert_eq!(encode_write_i32([0x11, 0x32], -1), [0x11, 0x32, 0xff, 0xff, 0xff, 0xff]);
    assert_eq!(encode_write_i32([0x11, 0x33], 0x1234_5678), [0x11, 0x33, 0x12, 0x34, 0x56, 0x78]);
    assert_eq!(encode_write_i32([1, 2], i32::MIN), [1, 2, 0x80, 0, 0, 0]);
    assert_eq!(encode_write_i32([1, 2], i32::MAX), [1, 2, 0x7f, 0xff, 0xff, 0xff]);
}

#[test]
fn encode_then_decode_gives_the_value_back() {
    for value in [0, 1, -1, 127, -128, 65536, -65537, i32::MAX, i32::MIN, 0x0102_0304] {
        let frame = encode_write_i32([0x11, 0x30], value);
        assert_eq!(&frame[2..], &value.to_be_bytes());
        assert_eq!(decode_i32([frame[2], frame[3], frame[4], frame[5]]), value);
    }
}

#[test]
fn encode_write_u8_frames_register_and_value() {
    assert_eq!(encode_write_u8([0x11, 0x10], 1), [0x11, 0x10, 1]);
    assert_eq!(encode_write_u8([0x11, 0x13], 0xff), [0x11, 0x13, 0xff]);
}

// ── Board and driver ─────────────────────────────────────────────

#[test]
fn driver_keeps_bus_and_address() {
    let mut driver = SeesawDriver::new(7u32, 0x36);
    assert_eq!(driver.address(), 0x36);
    assert_eq!(*driver.i2c_mut(), 7);
    *driver.i2c_mut() = 9;
    assert_eq!(*driver.i2c_mut(), 9);
    assert_eq!(driver.address(), 0x36);
}

#[test]
fn board_hands_out_its_driver() {
    let mut board = QuadEncoderBoard::new(3u8, DEFAULT_ADDRESS);
    assert_eq!(board.driver_mut().address(), 0x49);
    assert_eq!(*board.driver_mut().i2c_mut(), 3);
}

// ── Deltas ───────────────────────────────────────────────────────

#[test]
fn first_reading_is_measured_against_the_baseline() {
    let mut processor = EncoderUpdateProcessor::new([10, 20, 30, 40]);
    let deltas = processor.on_reading(Some([11, 20, 25, 40]));
    assert_eq!(deltas, Some([1, 0, -5, 0]));
    assert_eq!(processor.previous_positions, [11, 20, 25, 40]);
}

#[test]
fn failed_read_keeps_the_baseline() {
    let mut processor = EncoderUpdateProcessor::new([1, 2, 3, 4]);
    assert_eq!(processor.on_reading(None), None);
    assert_eq!(processor.previous_positions, [1, 2, 3, 4]);
    // The next good reading is measured against the old baseline.
    assert_eq!(processor.on_reading(Some([2, 2, 3, 4])), Some([1, 0, 0, 0]));
}

#[test]
fn unchanged_reading_yields_nothing() {
    let mut processor = EncoderUpdateProcessor::new([5, 5, 5, 5]);
    assert_eq!(processor.on_reading(Some([5, 5, 5, 5])), None);
    assert_eq!(processor.previous_positions, [5, 5, 5, 5]);
}

#[test]
fn deltas_do_not_drift() {
    let mut processor = EncoderUpdateProcessor::new([0, 0, 0, 0]);
    let first = processor.on_reading(Some([3, -2, 0, 7])).unwrap();
    let second = processor.on_reading(Some([10, -2, -1, 7])).unwrap();
    for i in 0..4 {
        assert_eq!(first[i] + second[i], [10i64, -2, -1, 7][i]);
    }
}

#[test]
fn deltas_are_exact_at_the_ends_of_the_range() {
    let mut processor = EncoderUpdateProcessor::new([i32::MIN, i32::MAX, 0, 0]);
    let deltas = processor.on_reading(Some([i32::MAX, i32::MIN, 0, 0])).unwrap();
    assert_eq!(deltas[0], 4294967295);
    assert_eq!(deltas[1], -4294967295);
    assert_eq!(processor.previous_positions, [i32::MAX, i32::MIN, 0, 0]);
}

#[test]
fn apply_moves_only_turned_encoders() {
    let mut pv = ParameterValues::new();
    EncoderUpdateProcessor::apply(&mut pv, &[5, 0, -3, 200]);

    let seen: Vec<(i32, bool, bool)> = pv.pages[0]
        .params
        .iter()
        .map(|slot| slot.as_ref().unwrap())
        .map(|param| (param.value, param.changed_oled, param.changed_i2c))
        .collect();
    assert_eq!(
        seen,
        vec![(5, true, true), (0, false, false), (0, true, true), (127, true, true)]
    );
}

#[test]
fn apply_is_one_encoder_write_per_moved_slot() {
    let deltas = [4i64, 0, -9, 1];
    let mut at_once = ParameterValues::new();
    at_once.set_page(1).unwrap();
    at_once.update_from_i2c(6, 50).unwrap();
    let mut one_by_one = ParameterValues::new();
    one_by_one.set_page(1).unwrap();
    one_by_one.update_from_i2c(6, 50).unwrap();

    EncoderUpdateProcessor::apply(&mut at_once, &deltas);
    for (slot, delta) in deltas.iter().enumerate() {
        if *delta != 0 {
            one_by_one.update_from_encoder(slot, *delta as i32);
        }
    }
    for page in 0..4 {
        for slot in 0..4 {
            match (at_once.pages[page].params[slot], one_by_one.pages[page].params[slot]) {
                (ParameterSlot::Active(a), ParameterSlot::Active(b)) => {
                    assert_eq!(
                        (a.value, a.changed_oled, a.changed_i2c),
                        (b.value, b.changed_oled, b.changed_i2c)
                    );
                }
                (ParameterSlot::Null, ParameterSlot::Null) => {}
                _ => panic!("slot kinds differ"),
            }
        }
    }
    assert_eq!(at_once.pages[1].params[2].as_ref().unwrap().value, 41);
}

#[test]
fn apply_skips_null_slots() {
    let mut pv = ParameterValues::new();
    pv.set_page(3).unwrap();
    EncoderUpdateProcessor::apply(&mut pv, &[1, 1, 1, 1]);
    assert_eq!(pv.pages[3].params[0].as_ref().unwrap().value, 1);
    assert_eq!(pv.pages[3].params[1].as_ref().unwrap().value, 1);
    assert!(matches!(pv.pages[3].params[2], ParameterSlot::Null));
    assert!(matches!(pv.pages[3].params[3], ParameterSlot::Null));
    let (_, count) = pv.take_oled_changes();
    assert_eq!(count, 2);
}

#[test]
fn nudge_slot_takes_a_delta_wider_than_the_value() {
    let mut pv = ParameterValues::new();
    pv.nudge_slot(0, 4294967295);
    assert_eq!(pv.pages[0].params[0].as_ref().unwrap().value, 127);
    pv.nudge_slot(0, i64::MIN);
    assert_eq!(pv.pages[0].params[0].as_ref().unwrap().value, 0);
    pv.nudge_slot(0, i64::MAX);
    assert_eq!(pv.pages[0].params[0].as_ref().unwrap().value, 127);
}
