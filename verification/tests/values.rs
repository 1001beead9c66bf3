use iree_rocket_hal::builders::values::{
    ArgbInputMode, BurstLength, DataPrecision, DpuOutputMode, OutputPrecision,
};
use iree_rocket_hal::builders::Bits;

#[test]
fn named_values_match_wire_encodings() {
    assert_eq!(Bits::<3>::from(DataPrecision::Fp16).val(), 2);
    assert_eq!(Bits::<3>::from(OutputPrecision::Int32).val(), 4);
    assert_eq!(Bits::<4>::from(BurstLength::Sixteen).val(), 15);
    assert_eq!(Bits::<4>::from(ArgbInputMode::ThreeChannels).val(), 10);
    assert_eq!(Bits::<2>::from(DpuOutputMode::ExternalMemory).val(), 0b10);
}

#[test]
fn every_named_value_has_its_documented_code() {
    let data = [
        (DataPrecision::Int8, 0),
        (DataPrecision::Int16, 1),
        (DataPrecision::Fp16, 2),
        (DataPrecision::Bf16, 3),
        (DataPrecision::Int4, 6),
        (DataPrecision::Tf32, 7),
    ];
    for (precision, code) in data {
        assert_eq!(Bits::<3>::from(precision).val(), code);
    }
    let output = [
        (OutputPrecision::Int8, 0),
        (OutputPrecision::Int16, 1),
        (OutputPrecision::Fp16, 2),
        (OutputPrecision::Bf16, 3),
        (OutputPrecision::Int32, 4),
        (OutputPrecision::Fp32, 5),
        (OutputPrecision::Int4, 6),
    ];
    for (precision, code) in output {
        assert_eq!(Bits::<3>::from(precision).val(), code);
    }
    assert_eq!(Bits::<4>::from(BurstLength::Four).val(), 3);
    assert_eq!(Bits::<4>::from(BurstLength::Eight).val(), 7);
    assert_eq!(Bits::<4>::from(ArgbInputMode::OneChannel).val(), 8);
    assert_eq!(Bits::<4>::from(ArgbInputMode::TwoChannels).val(), 9);
    assert_eq!(Bits::<4>::from(ArgbInputMode::FourChannels).val(), 11);
    assert_eq!(Bits::<2>::from(DpuOutputMode::Disabled).val(), 0);
    assert_eq!(Bits::<2>::from(DpuOutputMode::Ppu).val(), 1);
    assert_eq!(Bits::<2>::from(DpuOutputMode::PpuAndExternalMemory).val(), 3);
}
