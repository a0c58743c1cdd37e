use flight_warning::logic::UpdateContext;
use flight_warning::parameters::{Arinc429Parameter, DiscreteParameter};
use flight_warning::phases::{
    A320FlightWarningComputer, BothEngineRunning, EnginesNotRunning, FlightPhasesGround,
    GroundDetection, NewGroundDef, SignalTable, SpeedDetection,
};

/// The whole pipeline wired by hand, so that a test can drive the
/// takeoff-power flag that the placeholder sheet never raises.
struct TestPipeline {
    new_ground_def: NewGroundDef,
    ground_detection: GroundDetection,
    speed_detection: SpeedDetection,
    engines_not_running: EnginesNotRunning,
    both_engine_running: BothEngineRunning,
    flight_phases_ground: FlightPhasesGround,
}

impl TestPipeline {
    fn new() -> Self {
        TestPipeline {
            new_ground_def: NewGroundDef::new(),
            ground_detection: GroundDetection::new(),
            speed_detection: SpeedDetection::new(),
            engines_not_running: EnginesNotRunning::new(),
            both_engine_running: BothEngineRunning::new(),
            flight_phases_ground: FlightPhasesGround::new(),
        }
    }

    fn tick(&mut self, delta_ms: u64, signals: &SignalTable, eng_1_or_2_to_pwr: bool) {
        let context = UpdateContext::new(delta_ms);
        self.new_ground_def.update(&context, signals);
        self.ground_detection.update(
            &context,
            signals,
            self.new_ground_def.new_ground(),
            self.new_ground_def.lgciu_12_inv(),
        );
        self.speed_detection.update(&context, signals);
        self.engines_not_running
            .update(&context, signals, self.ground_detection.ground());
        self.both_engine_running.update(
            &context,
            signals,
            self.engines_not_running.eng_1_not_running(),
            self.engines_not_running.eng_2_not_running(),
        );
        self.flight_phases_ground.update(
            &context,
            signals,
            self.ground_detection.ground(),
            self.ground_detection.ground_immediate(),
            self.speed_detection.ac_speed_above_80_kt(),
            self.speed_detection.adc_test_inhib(),
            self.both_engine_running.eng_1_and_2_not_running(),
            self.both_engine_running.eng_1_or_2_running(),
            self.both_engine_running.one_eng_running(),
            eng_1_or_2_to_pwr,
        );
    }

    /// Asserts that exactly one ground phase is active and returns it.
    fn phase(&self) -> u32 {
        let sheet = &self.flight_phases_ground;
        let flags = [
            sheet.phase_1(),
            sheet.phase_2(),
            sheet.phase_3(),
            sheet.phase_4(),
            sheet.phase_8(),
            sheet.phase_9(),
            sheet.phase_10(),
        ];
        let count: usize = flags.iter().filter(|&&flag| flag).count();
        assert_eq!(count, 1, "expected exactly one active phase, got {}", count);
        if sheet.phase_1() {
            1
        } else if sheet.phase_2() {
            2
        } else if sheet.phase_3() {
            3
        } else if sheet.phase_4() {
            4
        } else if sheet.phase_8() {
            8
        } else if sheet.phase_9() {
            9
        } else {
            10
        }
    }
}

/// All gears compressed and agreeing, radio heights at zero, all speeds at
/// zero, both master levers validly off, all core-speed channels validly
/// low, no fire test and no takeoff-config test. Speeds are hundredths of
/// a knot, heights hundredths of a foot.
fn cold_and_dark_table() -> SignalTable {
    let mut signals = SignalTable::new();
    signals.lh_lg_compressed_1 = Arinc429Parameter::new(true);
    signals.lh_lg_compressed_2 = Arinc429Parameter::new(true);
    signals.ess_lh_lg_compressed = DiscreteParameter::new(true);
    signals.norm_lh_lg_compressed = DiscreteParameter::new(true);
    signals.radio_height_1 = Arinc429Parameter::new(0);
    signals.radio_height_2 = Arinc429Parameter::new(0);
    signals.computed_speed_1 = Arinc429Parameter::new(0);
    signals.computed_speed_2 = Arinc429Parameter::new(0);
    signals.computed_speed_3 = Arinc429Parameter::new(0);
    signals.eng1_master_lever_select_on = Arinc429Parameter::new(false);
    signals.eng2_master_lever_select_on = Arinc429Parameter::new(false);
    signals.eng1_core_speed_at_or_above_idle_1 = Arinc429Parameter::new(false);
    signals.eng1_core_speed_at_or_above_idle_2 = Arinc429Parameter::new(false);
    signals.eng2_core_speed_at_or_above_idle_1 = Arinc429Parameter::new(false);
    signals.eng2_core_speed_at_or_above_idle_2 = Arinc429Parameter::new(false);
    signals.eng_1_fire_pb_out = DiscreteParameter::new(false);
    signals.to_config_test = Arinc429Parameter::new(false);
    signals
}

/// Cold and dark, with engine 1 started: master lever on and both engine-1
/// core-speed channels high.
fn engine_started_table() -> SignalTable {
    let mut signals = cold_and_dark_table();
    signals.eng1_master_lever_select_on = Arinc429Parameter::new(true);
    signals.eng1_core_speed_at_or_above_idle_1 = Arinc429Parameter::new(true);
    signals.eng1_core_speed_at_or_above_idle_2 = Arinc429Parameter::new(true);
    signals
}

fn engine_started_at_speed_table(speed: i64) -> SignalTable {
    let mut signals = engine_started_table();
    signals.computed_speed_1 = Arinc429Parameter::new(speed);
    signals.computed_speed_2 = Arinc429Parameter::new(speed);
    signals.computed_speed_3 = Arinc429Parameter::new(speed);
    signals
}

/// Drives the pipeline to the "engine running on ground" state: one tick
/// to settle, then a thirty-second tick for the engine confirmations.
fn run_to_engine_started(pipeline: &mut TestPipeline) {
    pipeline.tick(1000, &cold_and_dark_table(), false);
    assert_eq!(pipeline.phase(), 1);
    pipeline.tick(1000, &engine_started_table(), false);
    assert_eq!(pipeline.phase(), 1);
    pipeline.tick(30000, &engine_started_table(), false);
}

fn run_to_takeoff_power(pipeline: &mut TestPipeline) {
    run_to_engine_started(pipeline);
    pipeline.tick(1000, &engine_started_table(), true);
}

fn run_to_above_80(pipeline: &mut TestPipeline) {
    run_to_takeoff_power(pipeline);
    pipeline.tick(1000, &engine_started_at_speed_table(4900), true);
    assert_eq!(pipeline.phase(), 3);
    pipeline.tick(1000, &engine_started_at_speed_table(8400), true);
}

fn run_to_rejected_takeoff(pipeline: &mut TestPipeline) {
    run_to_above_80(pipeline);
    pipeline.tick(1000, &engine_started_at_speed_table(8400), false);
    assert_eq!(pipeline.phase(), 8);
    pipeline.tick(1000, &engine_started_at_speed_table(7600), false);
}

#[test]
fn cold_and_dark_is_phase_1() {
    let mut pipeline = TestPipeline::new();
    pipeline.tick(1000, &cold_and_dark_table(), false);
    assert_eq!(pipeline.phase(), 1);
}

#[test]
fn engine_started_on_ground_is_phase_2() {
    let mut pipeline = TestPipeline::new();
    run_to_engine_started(&mut pipeline);
    assert_eq!(pipeline.both_engine_running.one_eng_running(), true);
    assert_eq!(pipeline.both_engine_running.eng_1_and_2_not_running(), false);
    assert_eq!(pipeline.phase(), 2);
}

#[test]
fn takeoff_power_on_ground_is_phase_3() {
    let mut pipeline = TestPipeline::new();
    run_to_takeoff_power(&mut pipeline);
    assert_eq!(pipeline.phase(), 3);
}

#[test]
fn above_80_kt_at_takeoff_power_is_phase_4() {
    let mut pipeline = TestPipeline::new();
    run_to_above_80(&mut pipeline);
    assert_eq!(pipeline.speed_detection.ac_speed_above_80_kt(), true);
    assert_eq!(pipeline.phase(), 4);
}

#[test]
fn rejected_takeoff_rolls_into_phase_9() {
    let mut pipeline = TestPipeline::new();
    run_to_rejected_takeoff(&mut pipeline);
    assert_eq!(pipeline.speed_detection.ac_speed_above_80_kt(), false);
    assert_eq!(pipeline.phase(), 9);
}

#[test]
fn post_flight_reset_through_phase_10_into_phase_1() {
    let mut pipeline = TestPipeline::new();
    run_to_rejected_takeoff(&mut pipeline);
    assert_eq!(pipeline.phase(), 9);
    let shutdown = cold_and_dark_table();
    pipeline.tick(1000, &shutdown, false);
    assert_eq!(pipeline.phase(), 10);
    pipeline.tick(100000, &shutdown, false);
    assert_eq!(pipeline.phase(), 10);
    pipeline.tick(100000, &shutdown, false);
    assert_eq!(pipeline.phase(), 10);
    pipeline.tick(99000, &shutdown, false);
    assert_eq!(pipeline.phase(), 10);
    pipeline.tick(1000, &shutdown, false);
    assert_eq!(pipeline.phase(), 1);
}

#[test]
fn spike_above_80_kt_is_rejected() {
    let mut pipeline = TestPipeline::new();
    run_to_engine_started(&mut pipeline);
    pipeline.tick(1000, &engine_started_at_speed_table(4900), false);
    assert_eq!(pipeline.speed_detection.ac_speed_above_80_kt(), false);
    pipeline.tick(500, &engine_started_at_speed_table(8400), false);
    assert_eq!(pipeline.speed_detection.ac_speed_above_80_kt(), false);
    pipeline.tick(1000, &engine_started_at_speed_table(4900), false);
    assert_eq!(pipeline.speed_detection.ac_speed_above_80_kt(), false);
}

#[test]
fn lgciu_mismatch_invalidates_channel() {
    let mut computer = A320FlightWarningComputer::new();
    let mut signals = cold_and_dark_table();
    signals.lh_lg_compressed_1 = Arinc429Parameter::new(true);
    signals.ess_lh_lg_compressed = DiscreteParameter::new(false);
    signals.lh_lg_compressed_2 = Arinc429Parameter::new(false);
    signals.norm_lh_lg_compressed = DiscreteParameter::new(false);
    let context = UpdateContext::new(1000);
    computer.update(&context, &signals);
    assert_eq!(computer.new_ground_def.new_ground(), false);
    assert_eq!(computer.new_ground_def.lgciu_12_inv(), true);
}

#[test]
fn computer_cold_and_dark_is_phase_1() {
    let mut computer = A320FlightWarningComputer::new();
    let context = UpdateContext::new(1000);
    computer.update(&context, &cold_and_dark_table());
    assert_eq!(computer.flight_phases_ground.phase_1(), true);
    assert_eq!(computer.flight_phases_ground.phase_2(), false);
    assert_eq!(computer.flight_phases_ground.phase_3(), false);
    assert_eq!(computer.flight_phases_ground.phase_4(), false);
    assert_eq!(computer.flight_phases_ground.phase_8(), false);
    assert_eq!(computer.flight_phases_ground.phase_9(), false);
    assert_eq!(computer.flight_phases_ground.phase_10(), false);
    assert_eq!(computer.cfm_flight_phases.cfm_flex(), false);
    assert_eq!(computer.cfm_flight_phases.eng_1_or_2_to_pwr(), false);
}

#[test]
fn takeoff_config_test_resets_phase_9_to_phase_2() {
    let mut pipeline = TestPipeline::new();
    run_to_rejected_takeoff(&mut pipeline);
    assert_eq!(pipeline.phase(), 9);
    let mut signals = engine_started_at_speed_table(0);
    signals.to_config_test = Arinc429Parameter::new(true);
    pipeline.tick(1000, &signals, false);
    assert_eq!(pipeline.phase(), 2);
}
