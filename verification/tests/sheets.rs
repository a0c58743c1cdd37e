use flight_warning::logic::UpdateContext;
use flight_warning::parameters::{Arinc429Parameter, DiscreteParameter};
use flight_warning::phases::{GroundDetection, NewGroundDef, SignalTable, SpeedDetection};

fn gnd_context(delta_ms: u64) -> UpdateContext {
    UpdateContext::new(delta_ms)
}

/// Builder over a signal table that starts with every parameter invalid,
/// as an unwired bus would read. Speeds are in hundredths of a knot,
/// heights in hundredths of a foot.
struct SignalTestBed {
    signals: SignalTable,
}

impl SignalTestBed {
    fn new() -> Self {
        SignalTestBed { signals: SignalTable::new() }
    }

    fn signals(&self) -> &SignalTable {
        &self.signals
    }

    fn lh_lg_compressed(mut self, lgciu: usize) -> Self {
        match lgciu {
            1 => self.signals.lh_lg_compressed_1 = Arinc429Parameter::new(true),
            2 => self.signals.lh_lg_compressed_2 = Arinc429Parameter::new(true),
            _ => panic!(),
        }
        self
    }

    fn lh_lg_extended(mut self, lgciu: usize) -> Self {
        match lgciu {
            1 => self.signals.lh_lg_compressed_1 = Arinc429Parameter::new(false),
            2 => self.signals.lh_lg_compressed_2 = Arinc429Parameter::new(false),
            _ => panic!(),
        }
        self
    }

    fn ess_lh_lg_compressed(mut self) -> Self {
        self.signals.ess_lh_lg_compressed = DiscreteParameter::new(true);
        self
    }

    fn norm_lh_lg_compressed(mut self) -> Self {
        self.signals.norm_lh_lg_compressed = DiscreteParameter::new(true);
        self
    }

    fn radio_heights(mut self, height1: i64, height2: i64) -> Self {
        self.signals.radio_height_1 = Arinc429Parameter::new(height1);
        self.signals.radio_height_2 = Arinc429Parameter::new(height2);
        self
    }

    fn computed_speeds(mut self, speed1: i64, speed2: i64, speed3: i64) -> Self {
        self.signals.computed_speed_1 = Arinc429Parameter::new(speed1);
        self.signals.computed_speed_2 = Arinc429Parameter::new(speed2);
        self.signals.computed_speed_3 = Arinc429Parameter::new(speed3);
        self
    }

    fn computed_speed_1(mut self, speed: i64) -> Self {
        self.signals.computed_speed_1 = Arinc429Parameter::new(speed);
        self
    }
}

fn test_bed_with() -> SignalTestBed {
    SignalTestBed::new()
}

#[test]
fn when_all_compressed_new_ground_and_not_inv() {
    let mut sheet = NewGroundDef::new();
    sheet.update(
        &gnd_context(1000),
        test_bed_with()
            .lh_lg_compressed(1)
            .ess_lh_lg_compressed()
            .lh_lg_compressed(2)
            .norm_lh_lg_compressed()
            .signals(),
    );
    assert_eq!(sheet.new_ground, true);
    assert_eq!(sheet.lgciu_12_inv, false);
}

#[test]
fn when_none_compressed_new_ground_and_not_inv() {
    let mut sheet = NewGroundDef::new();
    sheet.update(
        &gnd_context(1000),
        test_bed_with().lh_lg_extended(1).lh_lg_extended(2).signals(),
    );
    assert_eq!(sheet.new_ground, false);
    assert_eq!(sheet.lgciu_12_inv, false);
}

#[test]
fn when_single_lgciu_mismatch_then_lgciu12_inv() {
    let mut sheet = NewGroundDef::new();
    sheet.update(
        &gnd_context(1000),
        test_bed_with().lh_lg_compressed(1).lh_lg_extended(2).signals(),
    );
    assert_eq!(sheet.new_ground, false);
    assert_eq!(sheet.lgciu_12_inv, true);
}

#[test]
fn when_on_ground_ground_immediate_and_ground() {
    let mut sheet = GroundDetection::new();
    sheet.update(
        &gnd_context(1000),
        test_bed_with()
            .ess_lh_lg_compressed()
            .norm_lh_lg_compressed()
            .radio_heights(0, -100)
            .signals(),
        true,
        false,
    );
    assert_eq!(sheet.ground_immediate, true);
    assert_eq!(sheet.ground, true);
}

#[test]
fn when_touching_down_triggers_ground_immediate_first() {
    let mut sheet = GroundDetection::new();
    sheet.update(
        &gnd_context(500),
        test_bed_with()
            .ess_lh_lg_compressed()
            .norm_lh_lg_compressed()
            .radio_heights(0, -100)
            .signals(),
        true,
        false,
    );
    assert_eq!(sheet.ground_immediate, true);
    assert_eq!(sheet.ground, false);
    sheet.update(
        &gnd_context(500),
        test_bed_with()
            .ess_lh_lg_compressed()
            .norm_lh_lg_compressed()
            .radio_heights(0, -100)
            .signals(),
        true,
        false,
    );
    assert_eq!(sheet.ground_immediate, true);
    assert_eq!(sheet.ground, true);
}

#[test]
fn when_at_0_kt_not_above_80_kt() {
    let mut sheet = SpeedDetection::new();
    sheet.update(&gnd_context(1000), test_bed_with().computed_speeds(0, 0, 0).signals());
    assert_eq!(sheet.ac_speed_above_80_kt(), false);
}

#[test]
fn when_at_250_kt_above_80_kt() {
    let mut sheet = SpeedDetection::new();
    sheet.update(
        &gnd_context(1000),
        test_bed_with().computed_speeds(25000, 25000, 25000).signals(),
    );
    assert_eq!(sheet.ac_speed_above_80_kt(), true);
}

#[test]
fn when_one_adc_at_250_kt_not_above_80_kt() {
    let mut sheet = SpeedDetection::new();
    sheet.update(
        &gnd_context(1000),
        test_bed_with().computed_speeds(25000, 0, 0).signals(),
    );
    assert_eq!(sheet.ac_speed_above_80_kt(), false);
}

#[test]
fn when_two_at_250_kt_and_adc_failure_above_80_kt() {
    let mut sheet = SpeedDetection::new();
    sheet.update(
        &gnd_context(1000),
        test_bed_with().computed_speed_1(25000).signals(),
    );
    assert_eq!(sheet.ac_speed_above_80_kt(), true);
}

#[test]
fn when_two_adcs_at_250_kt_above_80_kt() {
    let mut sheet = SpeedDetection::new();
    sheet.update(
        &gnd_context(1000),
        test_bed_with().computed_speeds(25000, 0, 25000).signals(),
    );
    assert_eq!(sheet.ac_speed_above_80_kt(), true);
}

#[test]
fn when_spikes_below_50_to_above_80_kt_not_above_80_kt() {
    let mut sheet = SpeedDetection::new();
    sheet.update(
        &gnd_context(1000),
        test_bed_with().computed_speeds(4900, 4900, 4900).signals(),
    );
    sheet.update(
        &gnd_context(500),
        test_bed_with().computed_speeds(8400, 8400, 8400).signals(),
    );
    assert_eq!(sheet.ac_speed_above_80_kt(), false);
}

#[test]
fn when_jumps_below_50_to_above_80_kt_above_80_kt() {
    let mut sheet = SpeedDetection::new();
    sheet.update(
        &gnd_context(1000),
        test_bed_with().computed_speeds(4900, 4900, 4900).signals(),
    );
    sheet.update(
        &gnd_context(1000),
        test_bed_with().computed_speeds(8400, 8400, 8400).signals(),
    );
    assert_eq!(sheet.ac_speed_above_80_kt(), true);
}

#[test]
fn speed_exactly_at_thresholds_does_not_latch_or_release() {
    let mut sheet = SpeedDetection::new();
    sheet.update(
        &gnd_context(1000),
        test_bed_with().computed_speeds(8300, 8300, 8300).signals(),
    );
    assert_eq!(sheet.ac_speed_above_80_kt(), false);
    sheet.update(
        &gnd_context(1000),
        test_bed_with().computed_speeds(8400, 8400, 8400).signals(),
    );
    assert_eq!(sheet.ac_speed_above_80_kt(), true);
    sheet.update(
        &gnd_context(1000),
        test_bed_with().computed_speeds(7700, 7700, 7700).signals(),
    );
    assert_eq!(sheet.ac_speed_above_80_kt(), true);
    sheet.update(
        &gnd_context(1000),
        test_bed_with().computed_speeds(7699, 7699, 7699).signals(),
    );
    assert_eq!(sheet.ac_speed_above_80_kt(), false);
}

#[test]
fn adc_functional_test_raises_test_inhibition_when_it_ends() {
    let mut sheet = SpeedDetection::new();
    let mut bed = test_bed_with().computed_speeds(0, 0, 0);
    bed.signals.computed_speed_1 = Arinc429Parameter {
        value: 0,
        ssm1: false,
        ssm2: true,
    };
    sheet.update(&gnd_context(1000), bed.signals());
    assert_eq!(sheet.adc_test_inhib(), false);
    let calm = test_bed_with().computed_speeds(0, 0, 0);
    sheet.update(&gnd_context(1000), calm.signals());
    assert_eq!(sheet.adc_test_inhib(), true);
    sheet.update(&gnd_context(1000), calm.signals());
    assert_eq!(sheet.adc_test_inhib(), true);
    sheet.update(&gnd_context(1000), calm.signals());
    assert_eq!(sheet.adc_test_inhib(), false);
}
