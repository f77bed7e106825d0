use a7105::registers::{
    reg_from_reply, read_reg, write_reg, AdcCaptureMode, AdcClockSpeed, AdcControl,
    BatteryDetectConfig, BatteryDetectResult, CalibrationControl, CkoPinControl, ClockSelect,
    Code1, Code2, Code3, DataRate, DetectThreshold, Fifo1, Fifo2, Gpio1PinControl,
    Gpio2PinControl, GpioPinFunction, IdData, IdErrorCodeTolerance, IdLength, LnaGain, MixerGain,
    MovingAverage, NonSleepModeVoltageSetting, PinOutputMode, Pll1, Pll2, Pll3, Pll4, Pll5,
    PreabmelPatternDetectionLength, PreambleLength, RcOsc3, Register, RssiCarrierDetectThreshold,
    RssiMargin, Rx, RxGain1, SleepModeVoltageSetting, Tx1, Tx2, VcoCurrentCalibration,
    VcoCurrentCalibrationResult, VcoSingleBandCalibration1, VcoSingleBandCalibration1Result,
    VcoVoltageOutput,
};

#[test]
fn test_gpio1_pin_control() {
    let default: u8 = Gpio1PinControl::default().into();
    assert_eq!(default, 0b1);

    assert_eq!(Gpio1PinControl::id(), 0xB);
}

#[test]
fn test_gpio2_pin_control() {
    let default: u8 = Gpio2PinControl::default().into();
    assert_eq!(default, 0b10001);

    assert_eq!(Gpio2PinControl::id(), 0xC);
}

#[test]
fn test_rx_register() {
    let default: u8 = RssiCarrierDetectThreshold::default().into();
    assert_eq!(default, 0b1001_0001);

    assert_eq!(RssiCarrierDetectThreshold::id(), 0x1D);
}

#[test]
fn gpio_function_codes() {
    let cases = [
        (GpioPinFunction::Wtr, 0x00u8),
        (GpioPinFunction::EoacOrFsync, 0x04),
        (GpioPinFunction::TmeoOrCd, 0x08),
        (GpioPinFunction::PreableDetectOutput, 0x0C),
        (GpioPinFunction::Default, 0x10),
        (GpioPinFunction::InPhaseDemodulatorInput, 0x14),
        (GpioPinFunction::Sdo, 0x18),
        (GpioPinFunction::Trxd, 0x1C),
        (GpioPinFunction::Rxd, 0x20),
        (GpioPinFunction::Txd, 0x24),
        (GpioPinFunction::InPhaseDemodulatorExternalInput, 0x28),
        (GpioPinFunction::ExternalFsyncInput, 0x2C),
    ];
    for (function, code) in cases {
        let byte: u8 = function.into();
        assert_eq!(byte, code);
    }
}

#[test]
fn gpio1_as_serial_data_output() {
    let reg = Gpio1PinControl {
        pin_function: GpioPinFunction::Sdo,
        invert_output: false,
        output_enabled: true,
    };
    let byte: u8 = reg.into();
    assert_eq!(byte, 0x19);
    let inverted = Gpio2PinControl {
        pin_function: GpioPinFunction::Txd,
        invert_output: true,
        output_enabled: false,
    };
    let byte: u8 = inverted.into();
    assert_eq!(byte, 0x26);
}

#[test]
fn battery_detect_config_bits() {
    let default: u8 = BatteryDetectConfig::default().into();
    assert_eq!(default, 0b0000_0110);
    let reg = BatteryDetectConfig {
        sleep_voltage_setting: SleepModeVoltageSetting::ThreeForths,
        nonsleep_voltage_setting: NonSleepModeVoltageSetting::V18,
        detect_threshold: DetectThreshold::V27,
        detect_enabled: true,
    };
    let byte: u8 = reg.into();
    assert_eq!(byte, 0b1110_1111);
    let reg = BatteryDetectConfig {
        sleep_voltage_setting: SleepModeVoltageSetting::ThreeFifth,
        nonsleep_voltage_setting: NonSleepModeVoltageSetting::V19,
        detect_threshold: DetectThreshold::V24,
        detect_enabled: false,
    };
    let byte: u8 = reg.into();
    assert_eq!(byte, 0b0100_1000);
    assert_eq!(BatteryDetectConfig::id(), 0x27);
}

#[test]
fn battery_detect_result_reads_bit_four() {
    assert!(BatteryDetectResult::from(0b0001_0000).voltage_above_threshold);
    assert!(!BatteryDetectResult::from(0b1110_1111).voltage_above_threshold);
    assert_eq!(BatteryDetectResult::default(), BatteryDetectResult { voltage_above_threshold: false });
    assert_eq!(BatteryDetectResult::id(), 0x27);
}

#[test]
fn id_data_round_trip() {
    let reg = IdData::from(0x5475C52A);
    assert_eq!(reg.id, 0x5475C52A);
    let back: u32 = reg.into();
    assert_eq!(back, 0x5475C52A);
    assert_eq!(IdData::id(), 0x06);
    assert_eq!(IdData::default().id, 0);
    assert_eq!(reg.to_bytes(), [0x54, 0x75, 0xC5, 0x2A]);
    assert_eq!(reg.write().tx, vec![0x06, 0x54, 0x75, 0xC5, 0x2A]);
    assert_eq!(reg.write().rx_len, 0);
    assert_eq!(IdData::from_reply(&[0x54, 0x75, 0xC5, 0x2A]), Some(reg));
    assert_eq!(IdData::from_reply(&[0x54, 0x75, 0xC5]), None);
    assert_eq!(IdData::from_reply(&[0xFF, 0xFF, 0xFF, 0xFF]), Some(IdData { id: u32::MAX }));
}

#[test]
fn tx1_bits() {
    let default: u8 = Tx1::default().into();
    assert_eq!(default, 0x16);
    let reg = Tx1 {
        moving_average: Some(MovingAverage::EightBit),
        data_invert: true,
        modulation_enable: false,
        filter_enable: true,
        fdp: 200,
    };
    let byte: u8 = reg.into();
    assert_eq!(byte, 0b1110_1111);
    let reg = Tx1 {
        moving_average: Some(MovingAverage::TwoBit),
        data_invert: false,
        modulation_enable: false,
        filter_enable: false,
        fdp: 2,
    };
    let byte: u8 = reg.into();
    assert_eq!(byte, 0b0100_0010);
    let reg = Tx1 { moving_average: Some(MovingAverage::FourBit), ..Tx1::default() };
    let byte: u8 = reg.into();
    assert_eq!(byte, 0b1001_0110);
    assert_eq!(Tx1::id(), 0x14);
}

#[test]
fn tx2_bits() {
    let default: u8 = Tx2::default().into();
    assert_eq!(default, 0x2B);
    let byte: u8 = Tx2 { fd: 0 }.into();
    assert_eq!(byte, 0x20);
    let byte: u8 = Tx2 { fd: 31 }.into();
    assert_eq!(byte, 0x3F);
    let byte: u8 = Tx2 { fd: 32 }.into();
    assert_eq!(byte, 0x3F);
    let byte: u8 = Tx2 { fd: 255 }.into();
    assert_eq!(byte, 0x3F);
    assert_eq!(Tx2::id(), 0x15);
}

#[test]
fn adc_control_bits() {
    let default: u8 = AdcControl::default().into();
    assert_eq!(default, 0xC3);
    let reg = AdcControl {
        margin: RssiMargin::Ten,
        rssi_end_early: true,
        adc_clock_speed: AdcClockSpeed::Mhz8,
        capture_mode: AdcCaptureMode::Single,
    };
    let byte: u8 = reg.into();
    assert_eq!(byte, 0b0111_0010);
    let reg = AdcControl { margin: RssiMargin::Five, ..AdcControl::default() };
    let byte: u8 = reg.into();
    assert_eq!(byte, 0b0000_0011);
    let reg = AdcControl { margin: RssiMargin::Fifteen, ..AdcControl::default() };
    let byte: u8 = reg.into();
    assert_eq!(byte, 0b1000_0011);
    assert_eq!(AdcControl::id(), 0x1E);
}

#[test]
fn calibration_control_round_trip() {
    for val in 0u8..=255 {
        let reg = CalibrationControl::from(val);
        assert_eq!(reg.vco_current_calibration_enabled, val & 4 != 0);
        assert_eq!(reg.vco_bank_calibration_enabled, val & 2 != 0);
        assert_eq!(reg.if_filter_bank_calibration_enabled, val & 1 != 0);
        let back: u8 = reg.into();
        assert_eq!(back, val & 7);
    }
    let byte: u8 = CalibrationControl::default().into();
    assert_eq!(byte, 0);
    assert_eq!(CalibrationControl::id(), 0x02);
}

#[test]
fn cko_pin_control_bits() {
    let default: u8 = CkoPinControl::default().into();
    assert_eq!(default, 0b1011_1010);
    let reg = CkoPinControl {
        external_clock_output_enabled: false,
        pin_output_mode: PinOutputMode::FifoPointerFlag,
        invert_output: true,
        output_enabled: false,
        invert_spi_clk_input: true,
    };
    let byte: u8 = reg.into();
    assert_eq!(byte, 0b0001_0101);
    let modes = [
        (PinOutputMode::DckInTxRckInRx, 0x00u8),
        (PinOutputMode::FifoPointerFlag, 0x10),
        (PinOutputMode::Fsync, 0x20),
        (PinOutputMode::FsyncDiv2, 0x28),
        (PinOutputMode::FsyncDiv4, 0x30),
        (PinOutputMode::FsyncDiv8, 0x38),
    ];
    for (mode, bits) in modes {
        let reg = CkoPinControl {
            external_clock_output_enabled: false,
            pin_output_mode: mode,
            invert_output: false,
            output_enabled: false,
            invert_spi_clk_input: false,
        };
        let byte: u8 = reg.into();
        assert_eq!(byte, bits);
    }
    assert_eq!(CkoPinControl::id(), 0x0A);
    assert_eq!(PinOutputMode::default(), PinOutputMode::FsyncDiv8);
}

#[test]
fn code_registers_bits() {
    let default: u8 = Code1::default().into();
    assert_eq!(default, 0b0000_0111);
    let reg = Code1 {
        data_whitening_enabled: false,
        fec_enabled: true,
        crc_enabled: true,
        id_length: IdLength::Four,
        preable_length: PreambleLength::Four,
    };
    let byte: u8 = reg.into();
    assert_eq!(byte, 0x1F);
    let reg = Code1 {
        data_whitening_enabled: true,
        fec_enabled: false,
        crc_enabled: false,
        id_length: IdLength::Two,
        preable_length: PreambleLength::Two,
    };
    let byte: u8 = reg.into();
    assert_eq!(byte, 0b0010_0001);
    assert_eq!(Code1::id(), 0x1F);

    let default: u8 = Code2::default().into();
    assert_eq!(default, 0b0111);
    let reg = Code2 {
        id_error_code_tolerance: IdErrorCodeTolerance::Bits3,
        preamble_pattern_detection_length: PreabmelPatternDetectionLength::Bits4,
    };
    let byte: u8 = reg.into();
    assert_eq!(byte, 0b1101);
    let reg = Code2 {
        id_error_code_tolerance: IdErrorCodeTolerance::Bits0,
        preamble_pattern_detection_length: PreabmelPatternDetectionLength::Bits16,
    };
    let byte: u8 = reg.into();
    assert_eq!(byte, 0x03);
    assert_eq!(Code2::id(), 0x20);

    let byte: u8 = Code3 { encryption_key: 0xC3 }.into();
    assert_eq!(byte, 0x43);
    let byte: u8 = Code3 { encryption_key: 0x7F }.into();
    assert_eq!(byte, 0x7F);
    let byte: u8 = Code3::default().into();
    assert_eq!(byte, 0);
    assert_eq!(Code3::id(), 0x21);
}

#[test]
fn plain_registers_pass_their_value() {
    let byte: u8 = DataRate::from(0x37).into();
    assert_eq!(byte, 0x37);
    assert_eq!(DataRate::default().rate, 0);
    assert_eq!(DataRate::id(), 0x0E);

    let byte: u8 = Fifo1::default().into();
    assert_eq!(byte, 0x3F);
    let byte: u8 = Fifo1 { end_pointer: 0x25 }.into();
    assert_eq!(byte, 0x25);
    assert_eq!(Fifo1::id(), 0x03);

    let byte: u8 = Pll1::from(0x50).into();
    assert_eq!(byte, 0x50);
    assert_eq!(Pll1::default().lo_channel, 0);
    assert_eq!(Pll1::id(), 0x0F);
    let byte: u8 = Pll3::default().into();
    assert_eq!(byte, 0x04);
    assert_eq!(Pll3::from(9).bip, 9);
    assert_eq!(Pll3::id(), 0x11);
    let byte: u8 = Pll4::from(7).into();
    assert_eq!(byte, 7);
    assert_eq!(Pll4::default().bfp, 0);
    assert_eq!(Pll4::id(), 0x12);
    let byte: u8 = Pll5::from(2).into();
    assert_eq!(byte, 2);
    assert_eq!(Pll5::default().bfp, 0);
    assert_eq!(Pll5::id(), 0x13);
    assert_ne!(Pll5::id(), Pll4::id());
}

#[test]
fn fifo2_keeps_the_bits_that_fit() {
    let default: u8 = Fifo2::default().into();
    assert_eq!(default, 0x40);
    let byte: u8 = Fifo2 { margin: 3, segment: 0x3F }.into();
    assert_eq!(byte, 0xFF);
    let byte: u8 = Fifo2 { margin: 4, segment: 0x40 }.into();
    assert_eq!(byte, 0x00);
    let byte: u8 = Fifo2 { margin: 6, segment: 0xC5 }.into();
    assert_eq!(byte, 0x85);
    assert_eq!(Fifo2::id(), 0x04);
}

#[test]
fn pll2_round_trip() {
    let default: u8 = Pll2::default().into();
    assert_eq!(default, 0x9E);
    for val in 0u8..=255 {
        let reg = Pll2::from(val);
        assert!(reg.rf_pll_ref_counter <= 3);
        assert!(reg.pll_chn_step <= 15);
        let back: u8 = reg.into();
        assert_eq!(back, val);
    }
    let reg = Pll2::from(0b1010_0101);
    assert_eq!(
        reg,
        Pll2 { crystal_freq_doubler: true, rf_pll_ref_counter: 1, pll_chn_step: 2, ip8: true }
    );
    let clipped = Pll2 {
        crystal_freq_doubler: false,
        rf_pll_ref_counter: 9,
        pll_chn_step: 77,
        ip8: false,
    };
    let byte: u8 = clipped.into();
    assert_eq!(byte, 0b0111_1110);
    assert_eq!(Pll2::id(), 0x10);
}

#[test]
fn rc_osc3_bits() {
    let cases = [
        (ClockSelect::FSyncDiv8, 0x05u8),
        (ClockSelect::FSyncDiv16, 0x45),
        (ClockSelect::FSyncDiv32, 0x85),
        (ClockSelect::FSyncDiv64, 0xC5),
    ];
    for (clock_select, bits) in cases {
        let byte: u8 = RcOsc3 { clock_select }.into();
        assert_eq!(byte, bits);
    }
    assert_eq!(RcOsc3::default().clock_select, ClockSelect::FSyncDiv8);
    assert_eq!(RcOsc3::id(), 0x09);
}

#[test]
fn rx_bits() {
    let default: u8 = Rx::default().into();
    assert_eq!(default, 0x61);
    let reg = Rx { freq_compensation_enable: true, ..Rx::default() };
    let byte: u8 = reg.into();
    assert_eq!(byte, 0x71);
    let reg = Rx {
        freq_compensation_enable: false,
        data_invert: true,
        bandwidth: a7105::registers::Bandwidth::khz250,
        lowside_band_select: false,
    };
    let byte: u8 = reg.into();
    assert_eq!(byte, 0x6A);
    assert_eq!(Rx::id(), 0x18);
}

#[test]
fn rx_gain_round_trip() {
    let default: u8 = RxGain1::default().into();
    assert_eq!(default, 0x00);
    let reg = RxGain1 {
        manual_vga_calibration: true,
        mixer_gain: MixerGain::db12,
        lna_gain: LnaGain::db0,
    };
    let byte: u8 = reg.into();
    assert_eq!(byte, 0b1001_0100);
    assert_eq!(RxGain1::from(byte), reg);
    let mixers = [MixerGain::db24, MixerGain::db18, MixerGain::db12, MixerGain::db6];
    let lnas = [LnaGain::db24, LnaGain::db18, LnaGain::db12, LnaGain::db6, LnaGain::db0];
    for (m, mixer_gain) in mixers.into_iter().enumerate() {
        for (l, lna_gain) in lnas.into_iter().enumerate() {
            let reg = RxGain1 { manual_vga_calibration: false, mixer_gain, lna_gain };
            let byte: u8 = reg.into();
            assert_eq!(byte as usize, 8 * m + l);
            assert_eq!(RxGain1::from(byte), reg);
        }
    }
    assert_eq!(RxGain1::from(0b0110_0111).lna_gain, LnaGain::db0);
    assert_eq!(RxGain1::from(0b0110_0111).mixer_gain, MixerGain::db24);
    assert!(!RxGain1::from(0b0110_0111).manual_vga_calibration);
    assert_eq!(RxGain1::id(), 0x19);
}

#[test]
fn vco_current_calibration_bits() {
    let default: u8 = VcoCurrentCalibration::default().into();
    assert_eq!(default, 0x13);
    let byte: u8 = VcoCurrentCalibration::Automatic.into();
    assert_eq!(byte, 0x00);
    let byte: u8 = VcoCurrentCalibration::Manual(0xFF).into();
    assert_eq!(byte, 0x1F);
    let byte: u8 = VcoCurrentCalibration::Manual(0x20).into();
    assert_eq!(byte, 0x10);
    assert_eq!(VcoCurrentCalibration::id(), 0x24);
    let result = VcoCurrentCalibrationResult::from(0b1111_0110);
    assert_eq!(result, VcoCurrentCalibrationResult { success: false, value: 6 });
    let result = VcoCurrentCalibrationResult::from(0b0000_1111);
    assert_eq!(result, VcoCurrentCalibrationResult { success: true, value: 15 });
    let result = VcoCurrentCalibrationResult::from(0b0001_0000);
    assert_eq!(result, VcoCurrentCalibrationResult { success: false, value: 0 });
    assert_eq!(VcoCurrentCalibrationResult::id(), 0x24);
}

#[test]
fn vco_band_calibration_bits() {
    let byte: u8 = VcoSingleBandCalibration1::default().into();
    assert_eq!(byte, 0x00);
    let byte: u8 = VcoSingleBandCalibration1::Manual(5).into();
    assert_eq!(byte, 0x0D);
    let byte: u8 = VcoSingleBandCalibration1::Manual(0xF8).into();
    assert_eq!(byte, 0x08);
    assert_eq!(VcoSingleBandCalibration1::id(), 0x25);
    let result = VcoSingleBandCalibration1Result::from(0b0001_1011);
    assert_eq!(
        result,
        VcoSingleBandCalibration1Result {
            voltage_output: VcoVoltageOutput::VtMid,
            success: false,
            value: 3,
        }
    );
    let result = VcoSingleBandCalibration1Result::from(0b0001_0101);
    assert_eq!(
        result,
        VcoSingleBandCalibration1Result {
            voltage_output: VcoVoltageOutput::VtMid,
            success: true,
            value: 5,
        }
    );
    assert_eq!(
        VcoSingleBandCalibration1Result::from(0b1100_0111).voltage_output,
        VcoVoltageOutput::VtMin
    );
    assert_eq!(
        VcoSingleBandCalibration1Result::from(0b0010_0000).voltage_output,
        VcoVoltageOutput::VtMax
    );
    assert_eq!(
        VcoSingleBandCalibration1Result::from(0b0011_0000).voltage_output,
        VcoVoltageOutput::VtMax
    );
    assert!(VcoSingleBandCalibration1Result::from(0b0011_0000).success);
    assert!(!VcoSingleBandCalibration1Result::from(0b0011_1000).success);
    assert_eq!(VcoSingleBandCalibration1Result::id(), 0x25);
}

#[test]
fn typed_register_transactions() {
    let t = write_reg(Fifo1 { end_pointer: 0x25 });
    assert_eq!(t.tx, vec![0x03, 0x25]);
    assert_eq!(t.rx_len, 0);
    let t = write_reg(Rx { freq_compensation_enable: true, ..Rx::default() });
    assert_eq!(t.tx, vec![0x18, 0x71]);
    let t = read_reg::<CalibrationControl>();
    assert_eq!(t.tx, vec![0x42]);
    assert_eq!(t.rx_len, 1);
    let t = read_reg::<RxGain1>();
    assert_eq!(t.tx, vec![0x59]);
    let reg: Option<Pll2> = reg_from_reply(&[0x9E]);
    assert_eq!(reg, Some(Pll2::default()));
    let reg: Option<Pll2> = reg_from_reply(&[]);
    assert_eq!(reg, None);
    let reg: Option<DataRate> = reg_from_reply(&[1, 2]);
    assert_eq!(reg, None);
}
