//! The flight-phase derivation pipeline: per-tick snapshot of the named
//! input signals, the ground / speed / engine detection sheets, and the
//! sheet that derives the mutually exclusive ground flight phases. Each
//! sheet is a network of logic nodes; its per-tick behaviour is given by a
//! spec-level transition function that its `update` is proved to follow.

use vstd::prelude::*;

use crate::logic::{
    confirmation_next, memory_next, monostable_next, transient_output, ConfirmationNode,
    MemoryNode, MonostableTriggerNode, PreceedingValueNode, TransientDetectionNode, UpdateContext,
};
use crate::parameters::{Arinc429Parameter, DiscreteParameter, FwcSsm, SignStatusMatrix, Value};

verus! {

/// Radio altitude below which a radio altimeter witnesses ground, in
/// hundredths of a foot (5 ft).
pub const RADIO_HEIGHT_ON_GROUND: i64 = 500;

/// Computed airspeed that must hold for one second before a channel may
/// vote, in hundredths of a knot (50 kt).
pub const SPEED_STABLE: i64 = 5000;

/// Computed airspeed above which a stable channel votes for the above-80-kt
/// latch, in hundredths of a knot (83 kt).
pub const SPEED_LATCH_SET: i64 = 8300;

/// Computed airspeed below which a channel votes to release the
/// above-80-kt latch, in hundredths of a knot (77 kt).
pub const SPEED_LATCH_RESET: i64 = 7700;

/// How many of four witnesses are high.
pub open spec fn count4(a: bool, b: bool, c: bool, d: bool) -> int {
    (if a { 1int } else { 0 }) + (if b { 1int } else { 0 }) + (if c { 1int } else { 0 })
        + (if d { 1int } else { 0 })
}

/// The immutable per-tick snapshot of every named input signal, read by all
/// sheets. Indexed accessors cover the redundant channels; indexing a
/// channel that does not exist is a wiring error and is excluded by
/// contract.
pub struct SignalTable {
    pub lh_lg_compressed_1: Arinc429Parameter<bool>,
    pub lh_lg_compressed_2: Arinc429Parameter<bool>,
    pub ess_lh_lg_compressed: DiscreteParameter,
    pub norm_lh_lg_compressed: DiscreteParameter,
    pub radio_height_1: Arinc429Parameter<i64>,
    pub radio_height_2: Arinc429Parameter<i64>,
    pub computed_speed_1: Arinc429Parameter<i64>,
    pub computed_speed_2: Arinc429Parameter<i64>,
    pub computed_speed_3: Arinc429Parameter<i64>,
    pub eng1_master_lever_select_on: Arinc429Parameter<bool>,
    pub eng2_master_lever_select_on: Arinc429Parameter<bool>,
    pub eng1_core_speed_at_or_above_idle_1: Arinc429Parameter<bool>,
    pub eng1_core_speed_at_or_above_idle_2: Arinc429Parameter<bool>,
    pub eng2_core_speed_at_or_above_idle_1: Arinc429Parameter<bool>,
    pub eng2_core_speed_at_or_above_idle_2: Arinc429Parameter<bool>,
    pub eng_1_fire_pb_out: DiscreteParameter,
    pub to_config_test: Arinc429Parameter<bool>,
}

/// The table before the host has written anything: every parameter carries
/// a failure warning.
pub open spec fn signal_table_all_invalid() -> SignalTable {
    SignalTable {
        lh_lg_compressed_1: Arinc429Parameter { value: false, ssm1: true, ssm2: true },
        lh_lg_compressed_2: Arinc429Parameter { value: false, ssm1: true, ssm2: true },
        ess_lh_lg_compressed: DiscreteParameter { value: false, ssm1: true, ssm2: true },
        norm_lh_lg_compressed: DiscreteParameter { value: false, ssm1: true, ssm2: true },
        radio_height_1: Arinc429Parameter { value: 0, ssm1: true, ssm2: true },
        radio_height_2: Arinc429Parameter { value: 0, ssm1: true, ssm2: true },
        computed_speed_1: Arinc429Parameter { value: 0, ssm1: true, ssm2: true },
        computed_speed_2: Arinc429Parameter { value: 0, ssm1: true, ssm2: true },
        computed_speed_3: Arinc429Parameter { value: 0, ssm1: true, ssm2: true },
        eng1_master_lever_select_on: Arinc429Parameter { value: false, ssm1: true, ssm2: true },
        eng2_master_lever_select_on: Arinc429Parameter { value: false, ssm1: true, ssm2: true },
        eng1_core_speed_at_or_above_idle_1: Arinc429Parameter { value: false, ssm1: true, ssm2: true },
        eng1_core_speed_at_or_above_idle_2: Arinc429Parameter { value: false, ssm1: true, ssm2: true },
        eng2_core_speed_at_or_above_idle_1: Arinc429Parameter { value: false, ssm1: true, ssm2: true },
        eng2_core_speed_at_or_above_idle_2: Arinc429Parameter { value: false, ssm1: true, ssm2: true },
        eng_1_fire_pb_out: DiscreteParameter { value: false, ssm1: true, ssm2: true },
        to_config_test: Arinc429Parameter { value: false, ssm1: true, ssm2: true },
    }
}

impl SignalTable {
    pub fn new() -> (table: SignalTable)
        ensures
            table == signal_table_all_invalid(),
    {
        SignalTable {
            lh_lg_compressed_1: Arinc429Parameter::new_inv(false),
            lh_lg_compressed_2: Arinc429Parameter::new_inv(false),
            ess_lh_lg_compressed: DiscreteParameter::new_inv(false),
            norm_lh_lg_compressed: DiscreteParameter::new_inv(false),
            radio_height_1: Arinc429Parameter::new_inv(0),
            radio_height_2: Arinc429Parameter::new_inv(0),
            computed_speed_1: Arinc429Parameter::new_inv(0),
            computed_speed_2: Arinc429Parameter::new_inv(0),
            computed_speed_3: Arinc429Parameter::new_inv(0),
            eng1_master_lever_select_on: Arinc429Parameter::new_inv(false),
            eng2_master_lever_select_on: Arinc429Parameter::new_inv(false),
            eng1_core_speed_at_or_above_idle_1: Arinc429Parameter::new_inv(false),
            eng1_core_speed_at_or_above_idle_2: Arinc429Parameter::new_inv(false),
            eng2_core_speed_at_or_above_idle_1: Arinc429Parameter::new_inv(false),
            eng2_core_speed_at_or_above_idle_2: Arinc429Parameter::new_inv(false),
            eng_1_fire_pb_out: DiscreteParameter::new_inv(false),
            to_config_test: Arinc429Parameter::new_inv(false),
        }
    }

    pub fn lh_lg_compressed(&self, index: usize) -> (parameter: &Arinc429Parameter<bool>)
        requires
            1 <= index <= 2,
        ensures
            *parameter == (if index == 1 { self.lh_lg_compressed_1 } else { self.lh_lg_compressed_2 }),
    {
        if index == 1 {
            &self.lh_lg_compressed_1
        } else {
            &self.lh_lg_compressed_2
        }
    }

    pub fn ess_lh_lg_compressed(&self) -> (parameter: &DiscreteParameter)
        ensures
            *parameter == self.ess_lh_lg_compressed,
    {
        &self.ess_lh_lg_compressed
    }

    pub fn norm_lh_lg_compressed(&self) -> (parameter: &DiscreteParameter)
        ensures
            *parameter == self.norm_lh_lg_compressed,
    {
        &self.norm_lh_lg_compressed
    }

    pub fn radio_height(&self, index: usize) -> (parameter: &Arinc429Parameter<i64>)
        requires
            1 <= index <= 2,
        ensures
            *parameter == (if index == 1 { self.radio_height_1 } else { self.radio_height_2 }),
    {
        if index == 1 {
            &self.radio_height_1
        } else {
            &self.radio_height_2
        }
    }

    pub fn computed_speed(&self, index: usize) -> (parameter: &Arinc429Parameter<i64>)
        requires
            1 <= index <= 3,
        ensures
            *parameter == (if index == 1 {
                self.computed_speed_1
            } else if index == 2 {
                self.computed_speed_2
            } else {
                self.computed_speed_3
            }),
    {
        if index == 1 {
            &self.computed_speed_1
        } else if index == 2 {
            &self.computed_speed_2
        } else {
            &self.computed_speed_3
        }
    }

    pub fn eng1_master_lever_select_on(&self) -> (parameter: &Arinc429Parameter<bool>)
        ensures
            *parameter == self.eng1_master_lever_select_on,
    {
        &self.eng1_master_lever_select_on
    }

    pub fn eng2_master_lever_select_on(&self) -> (parameter: &Arinc429Parameter<bool>)
        ensures
            *parameter == self.eng2_master_lever_select_on,
    {
        &self.eng2_master_lever_select_on
    }

    pub fn eng1_core_speed_at_or_above_idle(&self, index: usize) -> (parameter: &Arinc429Parameter<bool>)
        requires
            1 <= index <= 2,
        ensures
            *parameter == (if index == 1 {
                self.eng1_core_speed_at_or_above_idle_1
            } else {
                self.eng1_core_speed_at_or_above_idle_2
            }),
    {
        if index == 1 {
            &self.eng1_core_speed_at_or_above_idle_1
        } else {
            &self.eng1_core_speed_at_or_above_idle_2
        }
    }

    pub fn eng2_core_speed_at_or_above_idle(&self, index: usize) -> (parameter: &Arinc429Parameter<bool>)
        requires
            1 <= index <= 2,
        ensures
            *parameter == (if index == 1 {
                self.eng2_core_speed_at_or_above_idle_1
            } else {
                self.eng2_core_speed_at_or_above_idle_2
            }),
    {
        if index == 1 {
            &self.eng2_core_speed_at_or_above_idle_1
        } else {
            &self.eng2_core_speed_at_or_above_idle_2
        }
    }

    pub fn eng_1_fire_pb_out(&self) -> (parameter: &DiscreteParameter)
        ensures
            *parameter == self.eng_1_fire_pb_out,
    {
        &self.eng_1_fire_pb_out
    }

    pub fn to_config_test(&self) -> (parameter: &Arinc429Parameter<bool>)
        ensures
            *parameter == self.to_config_test,
    {
        &self.to_config_test
    }
}

/// The LGCIU ground sheet: cross-checks each landing-gear computer's
/// compressed discrete against its backup discrete, reports agreement of
/// both as `new_ground` and a persistently failed cross-check as
/// `lgciu_12_inv`.
pub struct NewGroundDef {
    pub conf1: ConfirmationNode,
    pub conf2: ConfirmationNode,
    pub conf3: ConfirmationNode,
    pub conf4: ConfirmationNode,
    pub memory1: MemoryNode,
    pub memory2: MemoryNode,
    pub new_ground: bool,
    pub lgciu_12_inv: bool,
}

/// The nodes of one LGCIU channel cross-check.
pub struct LgciuChannel {
    pub conf_mismatch: ConfirmationNode,
    pub conf_agree: ConfirmationNode,
    pub memory: MemoryNode,
}

/// One LGCIU channel of the cross-check after one tick. The mismatch
/// between main and backup discrete must persist through a confirmation
/// before it latches the channel invalid; agreement persisting through the
/// opposite confirmation releases the latch. An unusable main discrete
/// (no computed data or invalid) latches the channel invalid at once, and
/// in that case its mismatch confirmation is left untouched.
pub open spec fn lgciu_channel_next(
    conf_mismatch: ConfirmationNode,
    conf_agree: ConfirmationNode,
    memory: MemoryNode,
    delta: u64,
    main: Arinc429Parameter<bool>,
    backup: bool,
) -> LgciuChannel {
    let mismatch = main.spec_as_bool() != backup;
    let unusable = main.spec_is_ncd() || main.spec_is_inv();
    let conf_mismatch_after = if unusable {
        conf_mismatch
    } else {
        confirmation_next(conf_mismatch, delta, mismatch)
    };
    let conf_agree_after = confirmation_next(conf_agree, delta, !mismatch);
    let memory_after = memory_next(
        memory,
        unusable || conf_mismatch_after.output,
        conf_agree_after.output,
    );
    LgciuChannel {
        conf_mismatch: conf_mismatch_after,
        conf_agree: conf_agree_after,
        memory: memory_after,
    }
}

/// The LGCIU ground sheet after one tick: the two channel cross-checks
/// advance, `new_ground` is the agreement of both channels on ground, and
/// `lgciu_12_inv` reports either channel latched invalid.
pub open spec fn new_ground_def_next(s: NewGroundDef, delta: u64, sig: SignalTable) -> NewGroundDef {
    let channel1 = lgciu_channel_next(
        s.conf1,
        s.conf2,
        s.memory1,
        delta,
        sig.lh_lg_compressed_1,
        sig.ess_lh_lg_compressed.spec_as_bool(),
    );
    let channel2 = lgciu_channel_next(
        s.conf3,
        s.conf4,
        s.memory2,
        delta,
        sig.lh_lg_compressed_2,
        sig.norm_lh_lg_compressed.spec_as_bool(),
    );
    let op1 = sig.lh_lg_compressed_1.spec_as_bool() && sig.ess_lh_lg_compressed.spec_as_bool();
    let op2 = sig.lh_lg_compressed_2.spec_as_bool() && sig.norm_lh_lg_compressed.spec_as_bool();
    NewGroundDef {
        conf1: channel1.conf_mismatch,
        conf2: channel1.conf_agree,
        conf3: channel2.conf_mismatch,
        conf4: channel2.conf_agree,
        memory1: channel1.memory,
        memory2: channel2.memory,
        new_ground: op1 && op2,
        lgciu_12_inv: channel1.memory.output || channel2.memory.output,
    }
}

/// Advances one LGCIU channel cross-check and returns the state of its
/// invalid latch.
fn update_lgciu_channel(
    conf_mismatch: &mut ConfirmationNode,
    conf_agree: &mut ConfirmationNode,
    memory: &mut MemoryNode,
    context: &UpdateContext,
    main: &Arinc429Parameter<bool>,
    backup: bool,
) -> (latched_invalid: bool)
    ensures
        ({
            let channel = lgciu_channel_next(
                *old(conf_mismatch),
                *old(conf_agree),
                *old(memory),
                context.delta_ms,
                *main,
                backup,
            );
            &&& *final(conf_mismatch) == channel.conf_mismatch
            &&& *final(conf_agree) == channel.conf_agree
            &&& *final(memory) == channel.memory
            &&& latched_invalid == channel.memory.output
        }),
{
    let mismatch = main.as_bool() != backup;
    let unusable = main.is_ncd() || main.is_inv();
    let set_memory = if unusable {
        true
    } else {
        conf_mismatch.update(context, mismatch)
    };
    let agree_confirmed = conf_agree.update(context, !mismatch);
    memory.update(context, set_memory, agree_confirmed)
}

/// The NewGroundDef sheet as constructed at startup.
pub open spec fn new_ground_def_initial() -> NewGroundDef {
    NewGroundDef {
        conf1: ConfirmationNode { leading_edge: true, time_delay: 1000, condition_since: 0, output: false },
        conf2: ConfirmationNode { leading_edge: true, time_delay: 500, condition_since: 0, output: false },
        conf3: ConfirmationNode { leading_edge: true, time_delay: 1000, condition_since: 0, output: false },
        conf4: ConfirmationNode { leading_edge: true, time_delay: 500, condition_since: 0, output: false },
        memory1: MemoryNode { has_set_precedence: true, nvm: false, output: false },
        memory2: MemoryNode { has_set_precedence: true, nvm: false, output: false },
        new_ground: false,
        lgciu_12_inv: false,
    }
}

impl NewGroundDef {
    pub fn new() -> (sheet: NewGroundDef)
        ensures
            sheet == new_ground_def_initial(),
    {
        NewGroundDef {
            conf1: ConfirmationNode::new_leading(1000),
            conf2: ConfirmationNode::new_leading(500),
            conf3: ConfirmationNode::new_leading(1000),
            conf4: ConfirmationNode::new_leading(500),
            memory1: MemoryNode::new(true),
            memory2: MemoryNode::new(true),
            new_ground: false,
            lgciu_12_inv: false,
        }
    }

    pub fn update(&mut self, context: &UpdateContext, signals: &SignalTable)
        ensures
            *final(self) == new_ground_def_next(*old(self), context.delta_ms, *signals),
    {
        let memory1_out = update_lgciu_channel(
            &mut self.conf1,
            &mut self.conf2,
            &mut self.memory1,
            context,
            signals.lh_lg_compressed(1),
            signals.ess_lh_lg_compressed().as_bool(),
        );
        let memory2_out = update_lgciu_channel(
            &mut self.conf3,
            &mut self.conf4,
            &mut self.memory2,
            context,
            signals.lh_lg_compressed(2),
            signals.norm_lh_lg_compressed().as_bool(),
        );

        let op1 = signals.lh_lg_compressed(1).as_bool() && signals.ess_lh_lg_compressed().as_bool();
        let op2 = signals.lh_lg_compressed(2).as_bool() && signals.norm_lh_lg_compressed().as_bool();

        self.new_ground = op1 && op2;
        self.lgciu_12_inv = memory1_out || memory2_out;
    }

    /// Both landing-gear computers concur that the aircraft is on ground.
    pub fn new_ground(&self) -> (answer: bool)
        ensures
            answer == self.new_ground,
    {
        self.new_ground
    }

    /// At least one LGCIU channel is latched invalid.
    pub fn lgciu_12_inv(&self) -> (answer: bool)
        ensures
            answer == self.lgciu_12_inv,
    {
        self.lgciu_12_inv
    }
}

/// The ground-detection sheet: combines the two LGCIU backup discretes with
/// two radio altimeters into `ground_immediate`, and debounces that by one
/// second into `ground`.
pub struct GroundDetection {
    pub memory1: MemoryNode,
    pub memory2: MemoryNode,
    pub conf1: ConfirmationNode,
    pub mrtrig1: MonostableTriggerNode,
    pub ground_immediate: bool,
    pub ground: bool,
}

/// The ground-detection sheet after one tick. Each radio altimeter latches
/// "below 5 ft" until the LGCIU backups disagree; a usable latched channel
/// is a ground witness beside the two backup discretes. Ground is accepted
/// on more than two of the four witnesses, or more than one when both
/// radios are invalid, or - with both radios silent but the LGCIUs sound -
/// on the LGCIU-only fallback held by a ten-second retriggerable pulse.
pub open spec fn ground_detection_next(
    s: GroundDetection,
    delta: u64,
    sig: SignalTable,
    new_ground: bool,
    lgciu_12_inv: bool,
) -> GroundDetection {
    let radio_1_ncd = sig.radio_height_1.spec_is_ncd();
    let radio_1_inv = sig.radio_height_1.spec_is_inv();
    let radio_2_ncd = sig.radio_height_2.spec_is_ncd();
    let radio_2_inv = sig.radio_height_2.spec_is_inv();
    let ess = sig.ess_lh_lg_compressed.spec_as_bool();
    let norm = sig.norm_lh_lg_compressed.spec_as_bool();
    let reset_memory = !ess || !norm;
    let set_memory_1 = sig.radio_height_1.value < RADIO_HEIGHT_ON_GROUND;
    let memory1 = memory_next(s.memory1, set_memory_1, reset_memory);
    let set_memory_2 = sig.radio_height_2.value < RADIO_HEIGHT_ON_GROUND;
    let memory2 = memory_next(s.memory2, set_memory_2, reset_memory);
    let radio_1_on_gnd = (memory1.output || set_memory_1) && !radio_1_ncd && !radio_1_inv;
    let radio_2_on_gnd = (memory2.output || set_memory_2) && !radio_2_ncd && !radio_2_inv;
    let ground_count = count4(ess, norm, radio_1_on_gnd, radio_2_on_gnd);
    let dual_radio_inv = radio_1_inv && radio_2_inv;
    let gnd_cond1 = ground_count > 2 && !dual_radio_inv;
    let gnd_cond2 = ground_count > 1 && dual_radio_inv;
    let mrtrig_in = radio_1_ncd && radio_2_ncd && !lgciu_12_inv;
    let mrtrig1 = monostable_next(s.mrtrig1, delta, mrtrig_in);
    let trig_ground = mrtrig1.output && new_ground;
    let ground_immediate = (gnd_cond1 || gnd_cond2) || trig_ground;
    let conf1 = confirmation_next(s.conf1, delta, ground_immediate);
    GroundDetection {
        memory1,
        memory2,
        conf1,
        mrtrig1,
        ground_immediate,
        ground: conf1.output,
    }
}

/// The GroundDetection sheet as constructed at startup.
pub open spec fn ground_detection_initial() -> GroundDetection {
    GroundDetection {
        memory1: MemoryNode { has_set_precedence: true, nvm: false, output: false },
        memory2: MemoryNode { has_set_precedence: true, nvm: false, output: false },
        conf1: ConfirmationNode { leading_edge: true, time_delay: 1000, condition_since: 0, output: false },
        mrtrig1: MonostableTriggerNode {
            leading_edge: true,
            time_delay: 10000,
            retriggerable: true,
            remaining_trigger: 0,
            last_hi: false,
            output: false,
        },
        ground_immediate: false,
        ground: false,
    }
}

impl GroundDetection {
    pub fn new() -> (sheet: GroundDetection)
        ensures
            sheet == ground_detection_initial(),
    {
        GroundDetection {
            memory1: MemoryNode::new(true),
            memory2: MemoryNode::new(true),
            conf1: ConfirmationNode::new(true, 1000),
            mrtrig1: MonostableTriggerNode::new_retriggerable(true, 10000),
            ground_immediate: false,
            ground: false,
        }
    }

    pub fn update(
        &mut self,
        context: &UpdateContext,
        signals: &SignalTable,
        new_ground: bool,
        lgciu_12_inv: bool,
    )
        ensures
            *final(self) == ground_detection_next(
                *old(self),
                context.delta_ms,
                *signals,
                new_ground,
                lgciu_12_inv,
            ),
    {
        let radio_1_ncd = signals.radio_height(1).is_ncd();
        let radio_1_inv = signals.radio_height(1).is_inv();
        let radio_2_ncd = signals.radio_height(2).is_ncd();
        let radio_2_inv = signals.radio_height(2).is_inv();

        let reset_memory = !signals.ess_lh_lg_compressed().as_bool()
            || !signals.norm_lh_lg_compressed().as_bool();
        let set_memory_1 = signals.radio_height(1).value() < RADIO_HEIGHT_ON_GROUND;
        let memory1_out = self.memory1.update(context, set_memory_1, reset_memory);

        let set_memory_2 = signals.radio_height(2).value() < RADIO_HEIGHT_ON_GROUND;
        let memory2_out = self.memory2.update(context, set_memory_2, reset_memory);

        let radio_1_on_gnd = (memory1_out || set_memory_1) && !radio_1_ncd && !radio_1_inv;
        let radio_2_on_gnd = (memory2_out || set_memory_2) && !radio_2_ncd && !radio_2_inv;

        let ground_count: u32 = (if signals.ess_lh_lg_compressed().as_bool() { 1 } else { 0 })
            + (if signals.norm_lh_lg_compressed().as_bool() { 1 } else { 0 })
            + (if radio_1_on_gnd { 1 } else { 0 })
            + (if radio_2_on_gnd { 1 } else { 0 });
        let more_than_2 = ground_count > 2;
        let more_than_1 = ground_count > 1;

        let dual_radio_inv = radio_1_inv && radio_2_inv;
        let gnd_cond1 = more_than_2 && !dual_radio_inv;
        let gnd_cond2 = more_than_1 && dual_radio_inv;

        let mrtrig_in = radio_1_ncd && radio_2_ncd && !lgciu_12_inv;
        let mrtrig1_out = self.mrtrig1.update(context, mrtrig_in);
        let trig_ground = mrtrig1_out && new_ground;

        self.ground_immediate = (gnd_cond1 || gnd_cond2) || trig_ground;
        self.ground = self.conf1.update(context, self.ground_immediate);
    }

    /// Debounced ground: `ground_immediate` stable for one second.
    pub fn ground(&self) -> (answer: bool)
        ensures
            answer == self.ground,
    {
        self.ground
    }

    /// Instantaneous ground as voted this tick.
    pub fn ground_immediate(&self) -> (answer: bool)
        ensures
            answer == self.ground_immediate,
    {
        self.ground_immediate
    }
}

/// The speed-detection sheet: triple-ADC voting into a latched
/// above-80-kt output, plus the functional-test inhibition pulse.
pub struct SpeedDetection {
    pub conf1: ConfirmationNode,
    pub conf2: ConfirmationNode,
    pub conf3: ConfirmationNode,
    pub memory: MemoryNode,
    pub mtrig1: MonostableTriggerNode,
    pub mtrig2: MonostableTriggerNode,
    pub ac_speed_above_80_kt: bool,
    pub adc_test_inhib: bool,
}

/// What one air-data channel contributes to the speed sheet in a tick.
pub struct AdcChannelVote {
    pub conf: ConfirmationNode,
    pub above_80: bool,
    pub below_77: bool,
    pub unusable: bool,
}

/// One air-data channel of the speed sheet after one tick: its stability
/// confirmation advances on "speed above 50 kt and channel usable", and the
/// channel votes above-80-kt only when stable, usable and above 83 kt, and
/// votes below-77-kt only when usable and below 77 kt.
pub open spec fn adc_channel_next(
    conf: ConfirmationNode,
    delta: u64,
    speed: Arinc429Parameter<i64>,
) -> AdcChannelVote {
    let unusable = speed.spec_is_inv() || speed.spec_is_ncd();
    let conf_after = confirmation_next(conf, delta, speed.value > SPEED_STABLE && !unusable);
    AdcChannelVote {
        conf: conf_after,
        above_80: conf_after.output && !unusable && speed.value > SPEED_LATCH_SET,
        below_77: speed.value < SPEED_LATCH_RESET && !unusable,
        unusable,
    }
}

/// The speed-detection sheet after one tick. The latch sets when more than
/// one of the four set witnesses (the three channel votes, and "any vote
/// with any channel unusable") is high, and resets when more than one of
/// the symmetric below-77-kt witnesses is high or when the half-second
/// functional-test pulse fires; when the reset count alone decides, that
/// pulse is left untouched. The test-inhibition output follows its own
/// 1.5-second pulse on any functional test.
pub open spec fn speed_detection_next(s: SpeedDetection, delta: u64, sig: SignalTable) -> SpeedDetection {
    let adc1 = adc_channel_next(s.conf1, delta, sig.computed_speed_1);
    let adc2 = adc_channel_next(s.conf2, delta, sig.computed_speed_2);
    let adc3 = adc_channel_next(s.conf3, delta, sig.computed_speed_3);
    let any_unusable = adc1.unusable || adc2.unusable || adc3.unusable;
    let any_above_80 = adc1.above_80 || adc2.above_80 || adc3.above_80;
    let set_memory = count4(adc1.above_80, adc2.above_80, adc3.above_80, any_above_80 && any_unusable) > 1;
    let any_below_77 = adc1.below_77 || adc2.below_77 || adc3.below_77;
    let reset_votes_hit = count4(adc1.below_77, adc2.below_77, adc3.below_77, any_below_77 && any_unusable) > 1;
    let any_adc_test = sig.computed_speed_1.spec_is_ft() || sig.computed_speed_2.spec_is_ft()
        || sig.computed_speed_3.spec_is_ft();
    let latch = speed_latch_next(s.memory, s.mtrig1, delta, set_memory, reset_votes_hit, any_adc_test);
    let memory = latch.memory;
    let mtrig1 = latch.mtrig;
    let mtrig2 = monostable_next(s.mtrig2, delta, any_adc_test);
    SpeedDetection {
        conf1: adc1.conf,
        conf2: adc2.conf,
        conf3: adc3.conf,
        memory,
        mtrig1,
        mtrig2,
        ac_speed_above_80_kt: memory.output,
        adc_test_inhib: mtrig2.output,
    }
}

/// The above-80-kt latch and its functional-test reset pulse.
pub struct SpeedLatch {
    pub memory: MemoryNode,
    pub mtrig: MonostableTriggerNode,
}

/// The above-80-kt latch and its functional-test reset pulse after one
/// tick: when the below-77-kt votes alone already decide the reset, the
/// half-second pulse is left untouched; otherwise it advances on "any
/// channel in functional test" and its output joins the reset.
pub open spec fn speed_latch_next(
    memory: MemoryNode,
    mtrig1: MonostableTriggerNode,
    delta: u64,
    set_memory: bool,
    reset_votes_hit: bool,
    any_adc_test: bool,
) -> SpeedLatch {
    let mtrig_after = if reset_votes_hit {
        mtrig1
    } else {
        monostable_next(mtrig1, delta, any_adc_test)
    };
    let reset_memory = reset_votes_hit || mtrig_after.output;
    SpeedLatch { memory: memory_next(memory, set_memory, reset_memory), mtrig: mtrig_after }
}

/// Advances the above-80-kt latch and its reset pulse, returning the
/// latched output.
fn update_speed_latch(
    memory: &mut MemoryNode,
    mtrig1: &mut MonostableTriggerNode,
    context: &UpdateContext,
    set_memory: bool,
    reset_votes_hit: bool,
    any_adc_test: bool,
) -> (latched: bool)
    ensures
        ({
            let latch = speed_latch_next(
                *old(memory),
                *old(mtrig1),
                context.delta_ms,
                set_memory,
                reset_votes_hit,
                any_adc_test,
            );
            &&& *final(memory) == latch.memory
            &&& *final(mtrig1) == latch.mtrig
            &&& latched == latch.memory.output
        }),
{
    let reset_memory = if reset_votes_hit {
        true
    } else {
        mtrig1.update(context, any_adc_test)
    };
    memory.update(context, set_memory, reset_memory)
}

/// Advances one air-data channel of the speed sheet and returns its
/// above-80-kt vote, its below-77-kt vote, and whether it is unusable.
fn update_adc_channel(
    conf: &mut ConfirmationNode,
    context: &UpdateContext,
    speed: &Arinc429Parameter<i64>,
) -> (votes: (bool, bool, bool))
    ensures
        ({
            let channel = adc_channel_next(*old(conf), context.delta_ms, *speed);
            &&& *final(conf) == channel.conf
            &&& votes.0 == channel.above_80
            &&& votes.1 == channel.below_77
            &&& votes.2 == channel.unusable
        }),
{
    let unusable = speed.is_inv() || speed.is_ncd();
    let stable = conf.update(context, speed.value() > SPEED_STABLE && !unusable);
    let above_80 = stable && !unusable && speed.value() > SPEED_LATCH_SET;
    let below_77 = speed.value() < SPEED_LATCH_RESET && !unusable;
    (above_80, below_77, unusable)
}

/// The SpeedDetection sheet as constructed at startup.
pub open spec fn speed_detection_initial() -> SpeedDetection {
    SpeedDetection {
        conf1: ConfirmationNode { leading_edge: true, time_delay: 1000, condition_since: 0, output: false },
        conf2: ConfirmationNode { leading_edge: true, time_delay: 1000, condition_since: 0, output: false },
        conf3: ConfirmationNode { leading_edge: true, time_delay: 1000, condition_since: 0, output: false },
        memory: MemoryNode { has_set_precedence: true, nvm: false, output: false },
        mtrig1: MonostableTriggerNode {
            leading_edge: false,
            time_delay: 500,
            retriggerable: false,
            remaining_trigger: 0,
            last_hi: false,
            output: false,
        },
        mtrig2: MonostableTriggerNode {
            leading_edge: false,
            time_delay: 1500,
            retriggerable: false,
            remaining_trigger: 0,
            last_hi: false,
            output: false,
        },
        ac_speed_above_80_kt: false,
        adc_test_inhib: false,
    }
}

impl SpeedDetection {
    pub fn new() -> (sheet: SpeedDetection)
        ensures
            sheet == speed_detection_initial(),
    {
        SpeedDetection {
            conf1: ConfirmationNode::new(true, 1000),
            conf2: ConfirmationNode::new(true, 1000),
            conf3: ConfirmationNode::new(true, 1000),
            memory: MemoryNode::new(true),
            mtrig1: MonostableTriggerNode::new(false, 500),
            mtrig2: MonostableTriggerNode::new(false, 1500),
            ac_speed_above_80_kt: false,
            adc_test_inhib: false,
        }
    }

    pub fn update(&mut self, context: &UpdateContext, signals: &SignalTable)
        ensures
            *final(self) == speed_detection_next(*old(self), context.delta_ms, *signals),
    {
        let adc1 = update_adc_channel(&mut self.conf1, context, signals.computed_speed(1));
        let adc2 = update_adc_channel(&mut self.conf2, context, signals.computed_speed(2));
        let adc3 = update_adc_channel(&mut self.conf3, context, signals.computed_speed(3));

        let any_unusable = adc1.2 || adc2.2 || adc3.2;
        let any_above_80 = adc1.0 || adc2.0 || adc3.0;
        let set_count: u32 = (if adc1.0 { 1 } else { 0 }) + (if adc2.0 { 1 } else { 0 })
            + (if adc3.0 { 1 } else { 0 }) + (if any_above_80 && any_unusable { 1 } else { 0 });
        let set_memory = set_count > 1;

        let any_below_77 = adc1.1 || adc2.1 || adc3.1;
        let reset_count: u32 = (if adc1.1 { 1 } else { 0 }) + (if adc2.1 { 1 } else { 0 })
            + (if adc3.1 { 1 } else { 0 }) + (if any_below_77 && any_unusable { 1 } else { 0 });
        let reset_votes_hit = reset_count > 1;

        let any_adc_test = signals.computed_speed(1).is_ft() || signals.computed_speed(2).is_ft()
            || signals.computed_speed(3).is_ft();

        self.ac_speed_above_80_kt = update_speed_latch(
            &mut self.memory,
            &mut self.mtrig1,
            context,
            set_memory,
            reset_votes_hit,
            any_adc_test,
        );
        self.adc_test_inhib = self.mtrig2.update(context, any_adc_test);
    }

    /// The latched "aircraft speed is above 80 kt" output.
    pub fn ac_speed_above_80_kt(&self) -> (answer: bool)
        ensures
            answer == self.ac_speed_above_80_kt,
    {
        self.ac_speed_above_80_kt
    }

    /// High for 1.5 s after any air-data channel reports a functional test.
    pub fn adc_test_inhib(&self) -> (answer: bool)
        ensures
            answer == self.adc_test_inhib,
    {
        self.adc_test_inhib
    }
}

/// The two stability confirmations of one engine's redundant core-speed
/// channels.
pub struct CoreSpeedConfs {
    pub conf_a: ConfirmationNode,
    pub conf_b: ConfirmationNode,
}

/// One engine's core-speed confirmations after one tick: each channel
/// feeds its own thirty-second leading-edge confirmation.
pub open spec fn core_speed_confs_next(
    conf_a: ConfirmationNode,
    conf_b: ConfirmationNode,
    delta: u64,
    channel_a: bool,
    channel_b: bool,
) -> CoreSpeedConfs {
    CoreSpeedConfs {
        conf_a: confirmation_next(conf_a, delta, channel_a),
        conf_b: confirmation_next(conf_b, delta, channel_b),
    }
}

/// Advances one engine's core-speed confirmations and returns whether both
/// are low, i.e. the core speed is confirmed not running.
fn update_core_speed_confs(
    conf_a: &mut ConfirmationNode,
    conf_b: &mut ConfirmationNode,
    context: &UpdateContext,
    channel_a: bool,
    channel_b: bool,
) -> (not_running_confirmed: bool)
    ensures
        ({
            let confs = core_speed_confs_next(
                *old(conf_a),
                *old(conf_b),
                context.delta_ms,
                channel_a,
                channel_b,
            );
            &&& *final(conf_a) == confs.conf_a
            &&& *final(conf_b) == confs.conf_b
            &&& not_running_confirmed == (!confs.conf_a.output && !confs.conf_b.output)
        }),
{
    let out_a = conf_a.update(context, channel_a);
    let out_b = conf_b.update(context, channel_b);
    !out_a && !out_b
}

/// The engines-not-running sheet: declares each engine not running from
/// its master lever, its confirmed core speed, and the fire-test override.
pub struct EnginesNotRunning {
    pub trans1: TransientDetectionNode,
    pub conf1: ConfirmationNode,
    pub conf2: ConfirmationNode,
    pub conf3: ConfirmationNode,
    pub conf4: ConfirmationNode,
    pub eng_1_not_running: bool,
    pub eng_2_not_running: bool,
}

/// The engines-not-running sheet after one tick. An engine is "core speed
/// not running" when both of its thirty-second channel confirmations are
/// low and the fire-test override does not hold it running; engine 1 is
/// also not running whenever its master lever validly reads off. The
/// engine-2 paths deliberately read the engine-1 master lever and the
/// engine-1 core-speed channels where symmetry would suggest engine 2's:
/// the wiring sheet is drawn that way, and the asymmetry is kept on
/// purpose rather than silently repaired.
pub open spec fn engines_not_running_next(
    s: EnginesNotRunning,
    delta: u64,
    sig: SignalTable,
    ground: bool,
) -> EnginesNotRunning {
    let fire_pb = sig.eng_1_fire_pb_out.spec_as_bool();
    let conf5_out = transient_output(s.trans1, fire_pb);
    let trans1 = TransientDetectionNode { change_signal: s.trans1.change_signal, predecessor: fire_pb };
    let eng1_a = sig.eng1_core_speed_at_or_above_idle_1.spec_as_bool();
    let eng1_b = sig.eng1_core_speed_at_or_above_idle_2.spec_as_bool();
    let confs1 = core_speed_confs_next(s.conf1, s.conf2, delta, eng1_a, eng1_b);
    let eng_1_not_running_conf = !confs1.conf_a.output && !confs1.conf_b.output;
    let eng_1_running_immediate = eng1_a && eng1_b && conf5_out && !ground;
    let eng_1_core_speed_not_running = eng_1_not_running_conf && !eng_1_running_immediate;
    let master_1_off = sig.eng1_master_lever_select_on.spec_is_val()
        && !sig.eng1_master_lever_select_on.spec_as_bool();
    let eng2_a = sig.eng2_core_speed_at_or_above_idle_1.spec_as_bool();
    let eng2_b = sig.eng2_core_speed_at_or_above_idle_2.spec_as_bool();
    let confs2 = core_speed_confs_next(s.conf3, s.conf4, delta, eng2_a, eng2_b);
    let eng_2_running_immediate = !ground && conf5_out && eng1_b && eng1_a;
    let eng_2_not_running_conf = !confs2.conf_a.output && !confs2.conf_b.output;
    let eng_2_core_speed_not_running = !eng_2_running_immediate && eng_2_not_running_conf;
    EnginesNotRunning {
        trans1,
        conf1: confs1.conf_a,
        conf2: confs1.conf_b,
        conf3: confs2.conf_a,
        conf4: confs2.conf_b,
        eng_1_not_running: master_1_off || eng_1_core_speed_not_running,
        eng_2_not_running: eng_2_core_speed_not_running
            || (!sig.eng1_master_lever_select_on.spec_as_bool()
                && sig.eng2_master_lever_select_on.spec_is_val()),
    }
}

/// The EnginesNotRunning sheet as constructed at startup.
pub open spec fn engines_not_running_initial() -> EnginesNotRunning {
    EnginesNotRunning {
        trans1: TransientDetectionNode { change_signal: true, predecessor: false },
        conf1: ConfirmationNode { leading_edge: true, time_delay: 30000, condition_since: 0, output: false },
        conf2: ConfirmationNode { leading_edge: true, time_delay: 30000, condition_since: 0, output: false },
        conf3: ConfirmationNode { leading_edge: true, time_delay: 30000, condition_since: 0, output: false },
        conf4: ConfirmationNode { leading_edge: true, time_delay: 30000, condition_since: 0, output: false },
        eng_1_not_running: false,
        eng_2_not_running: false,
    }
}

impl EnginesNotRunning {
    pub fn new() -> (sheet: EnginesNotRunning)
        ensures
            sheet == engines_not_running_initial(),
    {
        EnginesNotRunning {
            trans1: TransientDetectionNode::new(true),
            conf1: ConfirmationNode::new_leading(30000),
            conf2: ConfirmationNode::new_leading(30000),
            conf3: ConfirmationNode::new_leading(30000),
            conf4: ConfirmationNode::new_leading(30000),
            eng_1_not_running: false,
            eng_2_not_running: false,
        }
    }

    pub fn update(&mut self, context: &UpdateContext, signals: &SignalTable, ground: bool)
        ensures
            *final(self) == engines_not_running_next(*old(self), context.delta_ms, *signals, ground),
    {
        let conf5_out = self.trans1.update(context, signals.eng_1_fire_pb_out().as_bool());

        let eng1_a = signals.eng1_core_speed_at_or_above_idle(1).as_bool();
        let eng1_b = signals.eng1_core_speed_at_or_above_idle(2).as_bool();
        let eng_1_not_running_conf =
            update_core_speed_confs(&mut self.conf1, &mut self.conf2, context, eng1_a, eng1_b);
        let eng_1_running_immediate = eng1_a && eng1_b && conf5_out && !ground;
        let eng_1_core_speed_not_running = eng_1_not_running_conf && !eng_1_running_immediate;
        let master_1_off = signals.eng1_master_lever_select_on().is_val()
            && !signals.eng1_master_lever_select_on().as_bool();
        self.eng_1_not_running = master_1_off || eng_1_core_speed_not_running;

        let eng2_a = signals.eng2_core_speed_at_or_above_idle(1).as_bool();
        let eng2_b = signals.eng2_core_speed_at_or_above_idle(2).as_bool();
        let eng_2_not_running_conf =
            update_core_speed_confs(&mut self.conf3, &mut self.conf4, context, eng2_a, eng2_b);
        let eng_2_running_immediate = !ground && conf5_out && eng1_b && eng1_a;
        let eng_2_core_speed_not_running = !eng_2_running_immediate && eng_2_not_running_conf;
        self.eng_2_not_running = eng_2_core_speed_not_running
            || (!signals.eng1_master_lever_select_on().as_bool()
                && signals.eng2_master_lever_select_on().is_val());
    }

    /// Engine 1 is considered not running this tick.
    pub fn eng_1_not_running(&self) -> (answer: bool)
        ensures
            answer == self.eng_1_not_running,
    {
        self.eng_1_not_running
    }

    /// Engine 2 is considered not running this tick.
    pub fn eng_2_not_running(&self) -> (answer: bool)
        ensures
            answer == self.eng_2_not_running,
    {
        self.eng_2_not_running
    }
}

/// The engine-running aggregates: both-engines-off, any raw channel
/// running, and the thirty-second debounced "an engine is running".
pub struct BothEngineRunning {
    pub conf1: ConfirmationNode,
    pub eng_1_and_2_not_running: bool,
    pub eng_1_or_2_running: bool,
    pub one_eng_running: bool,
}

/// The engine-running aggregates after one tick: `one_eng_running` is the
/// raw OR of all four core-speed channels, `eng_1_or_2_running` its
/// thirty-second confirmation, and `eng_1_and_2_not_running` the AND of
/// the per-engine not-running verdicts.
pub open spec fn both_engine_running_next(
    s: BothEngineRunning,
    delta: u64,
    sig: SignalTable,
    eng_1_not_running: bool,
    eng_2_not_running: bool,
) -> BothEngineRunning {
    let one_eng_running = sig.eng1_core_speed_at_or_above_idle_1.spec_as_bool()
        || sig.eng1_core_speed_at_or_above_idle_2.spec_as_bool()
        || sig.eng2_core_speed_at_or_above_idle_1.spec_as_bool()
        || sig.eng2_core_speed_at_or_above_idle_2.spec_as_bool();
    let conf1 = confirmation_next(s.conf1, delta, one_eng_running);
    BothEngineRunning {
        conf1,
        eng_1_and_2_not_running: eng_1_not_running && eng_2_not_running,
        eng_1_or_2_running: conf1.output,
        one_eng_running,
    }
}

/// The BothEngineRunning sheet as constructed at startup.
pub open spec fn both_engine_running_initial() -> BothEngineRunning {
    BothEngineRunning {
        conf1: ConfirmationNode { leading_edge: true, time_delay: 30000, condition_since: 0, output: false },
        eng_1_and_2_not_running: false,
        eng_1_or_2_running: false,
        one_eng_running: false,
    }
}

impl BothEngineRunning {
    pub fn new() -> (sheet: BothEngineRunning)
        ensures
            sheet == both_engine_running_initial(),
    {
        BothEngineRunning {
            conf1: ConfirmationNode::new(true, 30000),
            eng_1_and_2_not_running: false,
            eng_1_or_2_running: false,
            one_eng_running: false,
        }
    }

    pub fn update(
        &mut self,
        context: &UpdateContext,
        signals: &SignalTable,
        eng_1_not_running: bool,
        eng_2_not_running: bool,
    )
        ensures
            *final(self) == both_engine_running_next(
                *old(self),
                context.delta_ms,
                *signals,
                eng_1_not_running,
                eng_2_not_running,
            ),
    {
        self.eng_1_and_2_not_running = eng_1_not_running && eng_2_not_running;
        let one_eng_running = signals.eng1_core_speed_at_or_above_idle(1).as_bool()
            || signals.eng1_core_speed_at_or_above_idle(2).as_bool()
            || signals.eng2_core_speed_at_or_above_idle(1).as_bool()
            || signals.eng2_core_speed_at_or_above_idle(2).as_bool();
        self.one_eng_running = one_eng_running;
        self.eng_1_or_2_running = self.conf1.update(context, one_eng_running);
    }

    /// Both engines are considered not running this tick.
    pub fn eng_1_and_2_not_running(&self) -> (answer: bool)
        ensures
            answer == self.eng_1_and_2_not_running,
    {
        self.eng_1_and_2_not_running
    }

    /// Debounced propulsion: some core-speed channel high for thirty
    /// seconds.
    pub fn eng_1_or_2_running(&self) -> (answer: bool)
        ensures
            answer == self.eng_1_or_2_running,
    {
        self.eng_1_or_2_running
    }

    /// Some raw core-speed channel reads at or above idle this tick.
    pub fn one_eng_running(&self) -> (answer: bool)
        ensures
            answer == self.one_eng_running,
    {
        self.one_eng_running
    }
}

/// Placeholder for the takeoff-power sheet: a full implementation would
/// derive takeoff power and flex from the engines' reported thrust mode,
/// so both outputs stay false here, and the phase sheet takes the
/// takeoff-power flag as an explicit input that hosts and tests may drive.
pub struct CfmFlightPhases {
    pub conf1: ConfirmationNode,
    pub cfm_flex: bool,
    pub eng_1_or_2_to_pwr: bool,
}

/// The CfmFlightPhases sheet as constructed at startup.
pub open spec fn cfm_flight_phases_initial() -> CfmFlightPhases {
    CfmFlightPhases {
        conf1: ConfirmationNode { leading_edge: true, time_delay: 30000, condition_since: 0, output: false },
        cfm_flex: false,
        eng_1_or_2_to_pwr: false,
    }
}

impl CfmFlightPhases {
    pub fn new() -> (sheet: CfmFlightPhases)
        ensures
            sheet == cfm_flight_phases_initial(),
    {
        CfmFlightPhases {
            conf1: ConfirmationNode::new(true, 30000),
            cfm_flex: false,
            eng_1_or_2_to_pwr: false,
        }
    }

    pub fn update(&mut self, _context: &UpdateContext)
        ensures
            *final(self) == *old(self),
    {
    }

    /// Whether a flex takeoff is detected; the placeholder never detects
    /// one.
    pub fn cfm_flex(&self) -> (answer: bool)
        ensures
            answer == self.cfm_flex,
    {
        self.cfm_flex
    }

    /// Whether an engine is at takeoff power; the placeholder never
    /// detects it.
    pub fn eng_1_or_2_to_pwr(&self) -> (answer: bool)
        ensures
            answer == self.eng_1_or_2_to_pwr,
    {
        self.eng_1_or_2_to_pwr
    }
}

/// The fire-test preamble of the phase sheet: transient-detect the engine-1
/// fire pushbutton, confirm the steady level for 0.2 s, and stretch the
/// result into a two-second pulse.
pub struct FireTestReset {
    pub trans1: TransientDetectionNode,
    pub conf1: ConfirmationNode,
    pub mtrig5: MonostableTriggerNode,
}

/// The fire-test preamble after one tick.
pub open spec fn fire_test_reset_next(
    trans1: TransientDetectionNode,
    conf1: ConfirmationNode,
    mtrig5: MonostableTriggerNode,
    delta: u64,
    fire_pb: DiscreteParameter,
) -> FireTestReset {
    let fire = fire_pb.spec_as_bool();
    let trans_out = transient_output(trans1, fire);
    let conf_after = confirmation_next(conf1, delta, trans_out);
    FireTestReset {
        trans1: TransientDetectionNode { change_signal: trans1.change_signal, predecessor: fire },
        conf1: conf_after,
        mtrig5: monostable_next(mtrig5, delta, conf_after.output),
    }
}

/// Advances the fire-test preamble and returns the pulse output.
fn update_fire_test_reset(
    trans1: &mut TransientDetectionNode,
    conf1: &mut ConfirmationNode,
    mtrig5: &mut MonostableTriggerNode,
    context: &UpdateContext,
    fire_pb: &DiscreteParameter,
) -> (pulse: bool)
    ensures
        ({
            let preamble = fire_test_reset_next(
                *old(trans1),
                *old(conf1),
                *old(mtrig5),
                context.delta_ms,
                *fire_pb,
            );
            &&& *final(trans1) == preamble.trans1
            &&& *final(conf1) == preamble.conf1
            &&& *final(mtrig5) == preamble.mtrig5
            &&& pulse == preamble.mtrig5.output
        }),
{
    let trans_out = trans1.update(context, fire_pb.as_bool());
    let conf_out = conf1.update(context, trans_out);
    mtrig5.update(context, conf_out)
}

/// The two-second hold beside ground-immediate on the phase-8 path: while
/// ground-immediate is high the pulse node is left untouched, and only
/// while it is low does the node advance, on the then-low input.
pub open spec fn phase8_hold_next(
    mtrig6: MonostableTriggerNode,
    delta: u64,
    ground_immediate: bool,
) -> MonostableTriggerNode {
    if ground_immediate {
        mtrig6
    } else {
        monostable_next(mtrig6, delta, ground_immediate)
    }
}

/// Advances the phase-8 hold and returns whether ground counts for phase 8
/// this tick: ground-immediate itself, or the trailing pulse.
fn update_phase8_hold(
    mtrig6: &mut MonostableTriggerNode,
    context: &UpdateContext,
    ground_immediate: bool,
) -> (held: bool)
    ensures
        *final(mtrig6) == phase8_hold_next(*old(mtrig6), context.delta_ms, ground_immediate),
        held == (ground_immediate || final(mtrig6).output),
{
    if ground_immediate {
        true
    } else {
        mtrig6.update(context, ground_immediate)
    }
}

/// The nodes around the phase-9 memory: the one-second takeoff-power
/// pulse, the three-second pulse on the preceding phase 9, the two-second
/// pulse on leaving 80 kt, and the latch itself.
pub struct Phase9Latch {
    pub mtrig1: MonostableTriggerNode,
    pub mtrig2: MonostableTriggerNode,
    pub mtrig4: MonostableTriggerNode,
    pub mem_phase9: MemoryNode,
}

/// The phase-9 latch block after one tick. The latch sets on phase 3 or
/// phase 8 and resets on the inhibited non-volatile reset (a reset witness
/// on ground, not within two seconds of leaving 80 kt, and not while
/// phase 9 itself was just active), on the air-data test inhibition, or on
/// a takeoff-config test while standing on ground with an engine running.
pub open spec fn phase9_latch_next(
    mtrig1: MonostableTriggerNode,
    mtrig2: MonostableTriggerNode,
    mtrig4: MonostableTriggerNode,
    mem_phase9: MemoryNode,
    delta: u64,
    prec_phase9: bool,
    eng_1_or_2_to_pwr: bool,
    ac_speed_above_80_kt: bool,
    ground: bool,
    reset_mem10: bool,
    adc_test_inhib: bool,
    to_config_reset_9: bool,
    set_mem9: bool,
) -> Phase9Latch {
    let mtrig1_after = monostable_next(mtrig1, delta, eng_1_or_2_to_pwr);
    let mtrig2_after = monostable_next(mtrig2, delta, prec_phase9);
    let mtrig4_after = monostable_next(mtrig4, delta, !ac_speed_above_80_kt);
    let reset_nvm = (ground && mtrig2_after.output) || reset_mem10 || (ground && mtrig1_after.output);
    let inhibited_reset_nvm = !mtrig4_after.output && reset_nvm && !prec_phase9;
    let reset_mem9 = inhibited_reset_nvm || adc_test_inhib || to_config_reset_9;
    Phase9Latch {
        mtrig1: mtrig1_after,
        mtrig2: mtrig2_after,
        mtrig4: mtrig4_after,
        mem_phase9: memory_next(mem_phase9, set_mem9, reset_mem9),
    }
}

/// Advances the phase-9 latch block and returns the latch output.
fn update_phase9_latch(
    mtrig1: &mut MonostableTriggerNode,
    mtrig2: &mut MonostableTriggerNode,
    mtrig4: &mut MonostableTriggerNode,
    mem_phase9: &mut MemoryNode,
    context: &UpdateContext,
    prec_phase9: bool,
    eng_1_or_2_to_pwr: bool,
    ac_speed_above_80_kt: bool,
    ground: bool,
    reset_mem10: bool,
    adc_test_inhib: bool,
    to_config_reset_9: bool,
    set_mem9: bool,
) -> (latched: bool)
    ensures
        ({
            let latch = phase9_latch_next(
                *old(mtrig1),
                *old(mtrig2),
                *old(mtrig4),
                *old(mem_phase9),
                context.delta_ms,
                prec_phase9,
                eng_1_or_2_to_pwr,
                ac_speed_above_80_kt,
                ground,
                reset_mem10,
                adc_test_inhib,
                to_config_reset_9,
                set_mem9,
            );
            &&& *final(mtrig1) == latch.mtrig1
            &&& *final(mtrig2) == latch.mtrig2
            &&& *final(mtrig4) == latch.mtrig4
            &&& *final(mem_phase9) == latch.mem_phase9
            &&& latched == latch.mem_phase9.output
        }),
{
    let mtrig1_out = mtrig1.update(context, eng_1_or_2_to_pwr);
    let mtrig2_out = mtrig2.update(context, prec_phase9);
    let mtrig4_out = mtrig4.update(context, !ac_speed_above_80_kt);
    let reset_nvm = (ground && mtrig2_out) || reset_mem10 || (ground && mtrig1_out);
    let inhibited_reset_nvm = !mtrig4_out && reset_nvm && !prec_phase9;
    let reset_mem9 = inhibited_reset_nvm || adc_test_inhib || to_config_reset_9;
    mem_phase9.update(context, set_mem9, reset_mem9)
}

/// The phase-1/10 block: the memory that a flight (phase 9) has happened,
/// and the five-minute pulse that separates phase 10 from phase 1.
pub struct Phase110 {
    pub mem_phase10: MemoryNode,
    pub mtrig3: MonostableTriggerNode,
}

/// The phase-1/10 block after one tick: the memory sets on phase 9 and
/// resets on the fire-test reset; the five-minute pulse starts when, with
/// that memory held and the shutdown condition met, the aircraft comes to
/// rest.
pub open spec fn phase110_next(
    mem_phase10: MemoryNode,
    mtrig3: MonostableTriggerNode,
    delta: u64,
    phase9: bool,
    reset_mem10: bool,
    phase110_cond: bool,
) -> Phase110 {
    let mem_after = memory_next(mem_phase10, phase9, reset_mem10);
    Phase110 {
        mem_phase10: mem_after,
        mtrig3: monostable_next(mtrig3, delta, mem_after.output && phase110_cond),
    }
}

/// Advances the phase-1/10 block and returns the five-minute pulse output.
fn update_phase110(
    mem_phase10: &mut MemoryNode,
    mtrig3: &mut MonostableTriggerNode,
    context: &UpdateContext,
    phase9: bool,
    reset_mem10: bool,
    phase110_cond: bool,
) -> (pulse: bool)
    ensures
        ({
            let block = phase110_next(
                *old(mem_phase10),
                *old(mtrig3),
                context.delta_ms,
                phase9,
                reset_mem10,
                phase110_cond,
            );
            &&& *final(mem_phase10) == block.mem_phase10
            &&& *final(mtrig3) == block.mtrig3
            &&& pulse == block.mtrig3.output
        }),
{
    let mem_out = mem_phase10.update(context, phase9, reset_mem10);
    mtrig3.update(context, mem_out && phase110_cond)
}

/// The ground flight-phase sheet: derives the mutually exclusive phases
/// 1, 2, 3, 4, 8, 9 and 10 from the ground, speed and engine sheets.
pub struct FlightPhasesGround {
    pub trans1: TransientDetectionNode,
    pub conf1: ConfirmationNode,
    pub mtrig1: MonostableTriggerNode,
    pub mtrig2: MonostableTriggerNode,
    pub mtrig3: MonostableTriggerNode,
    pub mtrig4: MonostableTriggerNode,
    pub mtrig5: MonostableTriggerNode,
    pub mtrig6: MonostableTriggerNode,
    pub mem_phase9: MemoryNode,
    pub mem_phase10: MemoryNode,
    pub prec_phase9: PreceedingValueNode,
    pub phase1: bool,
    pub phase2: bool,
    pub phase3: bool,
    pub phase4: bool,
    pub phase8: bool,
    pub phase9: bool,
    pub phase10: bool,
}

/// The ground flight-phase sheet after one tick.
///
/// With `G` the debounced ground, `Gi` ground-immediate, `S80` the
/// above-80-kt latch, `R` the debounced engine-running flag, `R1` the raw
/// one, `N2` both engines not running and `TOP` takeoff power:
/// phase 3 is `!S80 && R && G && TOP`, phase 4 is `S80 && G && TOP`,
/// phase 8 is `(Gi or its two-second hold) && !TOP && S80`; phases 2 and 9
/// share the phase-9 latch under `G && !TOP && !S80`, phase 2 with the
/// latch clear and `R`, phase 9 with the latch set and `R1`; and with no
/// phase 9, both engines off and `Gi`, the sheet shows phase 10 while the
/// five-minute pulse runs and phase 1 otherwise.
pub open spec fn flight_phases_ground_next(
    s: FlightPhasesGround,
    delta: u64,
    sig: SignalTable,
    ground: bool,
    ground_immediate: bool,
    ac_speed_above_80_kt: bool,
    adc_test_inhib: bool,
    eng_1_and_2_not_running: bool,
    eng_1_or_2_running: bool,
    one_eng_running: bool,
    eng_1_or_2_to_pwr: bool,
) -> FlightPhasesGround {
    let preamble = fire_test_reset_next(s.trans1, s.conf1, s.mtrig5, delta, sig.eng_1_fire_pb_out);
    let reset_mem10 = ground && preamble.mtrig5.output;
    let ground_and_to_pwr = ground && eng_1_or_2_to_pwr;
    let phase3 = !ac_speed_above_80_kt && eng_1_or_2_running && ground_and_to_pwr;
    let phase4 = ac_speed_above_80_kt && ground_and_to_pwr;
    let mtrig6 = phase8_hold_next(s.mtrig6, delta, ground_immediate);
    let phase8_cond1 = ground_immediate || mtrig6.output;
    let phase8 = phase8_cond1 && !eng_1_or_2_to_pwr && ac_speed_above_80_kt;
    let prec_phase9 = s.prec_phase9.predecessor;
    let phase29_cond = ground && !eng_1_or_2_to_pwr && !ac_speed_above_80_kt;
    let to_config_reset_9 = sig.to_config_test.spec_as_bool() && phase29_cond && one_eng_running;
    let latch9 = phase9_latch_next(
        s.mtrig1,
        s.mtrig2,
        s.mtrig4,
        s.mem_phase9,
        delta,
        prec_phase9,
        eng_1_or_2_to_pwr,
        ac_speed_above_80_kt,
        ground,
        reset_mem10,
        adc_test_inhib,
        to_config_reset_9,
        phase3 || phase8,
    );
    let phase9_mem = latch9.mem_phase9.output;
    let phase2 = phase29_cond && !phase9_mem && eng_1_or_2_running;
    let phase9 = one_eng_running && phase9_mem && phase29_cond;
    let phase110_cond = !phase9 && eng_1_and_2_not_running && ground_immediate;
    let block110 = phase110_next(s.mem_phase10, s.mtrig3, delta, phase9, reset_mem10, phase110_cond);
    FlightPhasesGround {
        trans1: preamble.trans1,
        conf1: preamble.conf1,
        mtrig1: latch9.mtrig1,
        mtrig2: latch9.mtrig2,
        mtrig3: block110.mtrig3,
        mtrig4: latch9.mtrig4,
        mtrig5: preamble.mtrig5,
        mtrig6,
        mem_phase9: latch9.mem_phase9,
        mem_phase10: block110.mem_phase10,
        prec_phase9: PreceedingValueNode { predecessor: phase9 },
        phase1: phase110_cond && !block110.mtrig3.output,
        phase2,
        phase3,
        phase4,
        phase8,
        phase9,
        phase10: phase110_cond && block110.mtrig3.output,
    }
}

/// The FlightPhasesGround sheet as constructed at startup.
pub open spec fn flight_phases_ground_initial() -> FlightPhasesGround {
    FlightPhasesGround {
        trans1: TransientDetectionNode { change_signal: false, predecessor: false },
        conf1: ConfirmationNode { leading_edge: true, time_delay: 200, condition_since: 0, output: false },
        mtrig1: MonostableTriggerNode {
            leading_edge: false,
            time_delay: 1000,
            retriggerable: false,
            remaining_trigger: 0,
            last_hi: false,
            output: false,
        },
        mtrig2: MonostableTriggerNode {
            leading_edge: false,
            time_delay: 3000,
            retriggerable: false,
            remaining_trigger: 0,
            last_hi: false,
            output: false,
        },
        mtrig3: MonostableTriggerNode {
            leading_edge: true,
            time_delay: 300000,
            retriggerable: false,
            remaining_trigger: 0,
            last_hi: false,
            output: false,
        },
        mtrig4: MonostableTriggerNode {
            leading_edge: true,
            time_delay: 2000,
            retriggerable: false,
            remaining_trigger: 0,
            last_hi: false,
            output: false,
        },
        mtrig5: MonostableTriggerNode {
            leading_edge: true,
            time_delay: 2000,
            retriggerable: false,
            remaining_trigger: 0,
            last_hi: false,
            output: false,
        },
        mtrig6: MonostableTriggerNode {
            leading_edge: true,
            time_delay: 2000,
            retriggerable: false,
            remaining_trigger: 0,
            last_hi: false,
            output: false,
        },
        mem_phase9: MemoryNode { has_set_precedence: true, nvm: true, output: false },
        mem_phase10: MemoryNode { has_set_precedence: false, nvm: false, output: false },
        prec_phase9: PreceedingValueNode { predecessor: false },
        phase1: false,
        phase2: false,
        phase3: false,
        phase4: false,
        phase8: false,
        phase9: false,
        phase10: false,
    }
}

impl FlightPhasesGround {
    pub fn new() -> (sheet: FlightPhasesGround)
        ensures
            sheet == flight_phases_ground_initial(),
    {
        FlightPhasesGround {
            trans1: TransientDetectionNode::new(false),
            conf1: ConfirmationNode::new_leading(200),
            mtrig1: MonostableTriggerNode::new(false, 1000),
            mtrig2: MonostableTriggerNode::new(false, 3000),
            mtrig3: MonostableTriggerNode::new(true, 300000),
            mtrig4: MonostableTriggerNode::new(true, 2000),
            mtrig5: MonostableTriggerNode::new(true, 2000),
            mtrig6: MonostableTriggerNode::new(true, 2000),
            mem_phase9: MemoryNode::new_nvm(true),
            mem_phase10: MemoryNode::new(false),
            prec_phase9: PreceedingValueNode::new(),
            phase1: false,
            phase2: false,
            phase3: false,
            phase4: false,
            phase8: false,
            phase9: false,
            phase10: false,
        }
    }

    pub fn update(
        &mut self,
        context: &UpdateContext,
        signals: &SignalTable,
        ground: bool,
        ground_immediate: bool,
        ac_speed_above_80_kt: bool,
        adc_test_inhib: bool,
        eng_1_and_2_not_running: bool,
        eng_1_or_2_running: bool,
        one_eng_running: bool,
        eng_1_or_2_to_pwr: bool,
    )
        ensures
            *final(self) == flight_phases_ground_next(
                *old(self),
                context.delta_ms,
                *signals,
                ground,
                ground_immediate,
                ac_speed_above_80_kt,
                adc_test_inhib,
                eng_1_and_2_not_running,
                eng_1_or_2_running,
                one_eng_running,
                eng_1_or_2_to_pwr,
            ),
    {
        let mtrig5_out = update_fire_test_reset(
            &mut self.trans1,
            &mut self.conf1,
            &mut self.mtrig5,
            context,
            signals.eng_1_fire_pb_out(),
        );
        let reset_mem10 = ground && mtrig5_out;

        let ground_and_to_pwr = ground && eng_1_or_2_to_pwr;
        let phase3 = !ac_speed_above_80_kt && eng_1_or_2_running && ground_and_to_pwr;
        self.phase3 = phase3;
        self.phase4 = ac_speed_above_80_kt && ground_and_to_pwr;

        let phase8_cond1 = update_phase8_hold(&mut self.mtrig6, context, ground_immediate);
        let phase8 = phase8_cond1 && !eng_1_or_2_to_pwr && ac_speed_above_80_kt;
        self.phase8 = phase8;

        let prec_phase9 = self.prec_phase9.get();
        let phase29_cond = ground && !eng_1_or_2_to_pwr && !ac_speed_above_80_kt;
        let to_config_reset_9 =
            signals.to_config_test().as_bool() && phase29_cond && one_eng_running;
        let phase9_mem = update_phase9_latch(
            &mut self.mtrig1,
            &mut self.mtrig2,
            &mut self.mtrig4,
            &mut self.mem_phase9,
            context,
            prec_phase9,
            eng_1_or_2_to_pwr,
            ac_speed_above_80_kt,
            ground,
            reset_mem10,
            adc_test_inhib,
            to_config_reset_9,
            phase3 || phase8,
        );

        self.phase2 = phase29_cond && !phase9_mem && eng_1_or_2_running;
        let phase9 = one_eng_running && phase9_mem && phase29_cond;
        self.phase9 = phase9;
        self.prec_phase9.update(context, phase9);

        let phase110_cond = !phase9 && eng_1_and_2_not_running && ground_immediate;
        let mtrig3_out = update_phase110(
            &mut self.mem_phase10,
            &mut self.mtrig3,
            context,
            phase9,
            reset_mem10,
            phase110_cond,
        );
        self.phase1 = phase110_cond && !mtrig3_out;
        self.phase10 = phase110_cond && mtrig3_out;
    }

    /// Phase 1: at rest with engines off, before or long after a flight.
    pub fn phase_1(&self) -> (answer: bool)
        ensures
            answer == self.phase1,
    {
        self.phase1
    }

    /// Phase 2: an engine running on ground without takeoff power.
    pub fn phase_2(&self) -> (answer: bool)
        ensures
            answer == self.phase2,
    {
        self.phase2
    }

    /// Phase 3: takeoff run below 80 kt.
    pub fn phase_3(&self) -> (answer: bool)
        ensures
            answer == self.phase3,
    {
        self.phase3
    }

    /// Phase 4: takeoff run at or above 80 kt.
    pub fn phase_4(&self) -> (answer: bool)
        ensures
            answer == self.phase4,
    {
        self.phase4
    }

    /// Phase 8: rolling above 80 kt without takeoff power.
    pub fn phase_8(&self) -> (answer: bool)
        ensures
            answer == self.phase8,
    {
        self.phase8
    }

    /// Phase 9: rollout below 80 kt after a takeoff or landing.
    pub fn phase_9(&self) -> (answer: bool)
        ensures
            answer == self.phase9,
    {
        self.phase9
    }

    /// Phase 10: the five minutes after shutdown following a flight.
    pub fn phase_10(&self) -> (answer: bool)
        ensures
            answer == self.phase10,
    {
        self.phase10
    }
}

/// How many of the seven ground phases a sheet state reports.
pub open spec fn spec_phase_count(s: FlightPhasesGround) -> int {
    (if s.phase1 { 1int } else { 0 }) + (if s.phase2 { 1int } else { 0 })
        + (if s.phase3 { 1int } else { 0 }) + (if s.phase4 { 1int } else { 0 })
        + (if s.phase8 { 1int } else { 0 }) + (if s.phase9 { 1int } else { 0 })
        + (if s.phase10 { 1int } else { 0 })
}

/// Phase mutual exclusion: from any sheet state and any inputs on which
/// the engine flags cohere - if both engines are not running, then neither
/// the debounced engine-running flag, nor takeoff power, nor the
/// above-80-kt latch can be high - the sheet reports at most one of the
/// phases 1, 2, 3, 4, 8, 9 and 10 after the tick.
pub proof fn lemma_phase_mutual_exclusion(
    s: FlightPhasesGround,
    delta: u64,
    sig: SignalTable,
    ground: bool,
    ground_immediate: bool,
    ac_speed_above_80_kt: bool,
    adc_test_inhib: bool,
    eng_1_and_2_not_running: bool,
    eng_1_or_2_running: bool,
    one_eng_running: bool,
    eng_1_or_2_to_pwr: bool,
)
    requires
        eng_1_and_2_not_running ==> !eng_1_or_2_running && !eng_1_or_2_to_pwr
            && !ac_speed_above_80_kt,
    ensures
        spec_phase_count(
            flight_phases_ground_next(
                s,
                delta,
                sig,
                ground,
                ground_immediate,
                ac_speed_above_80_kt,
                adc_test_inhib,
                eng_1_and_2_not_running,
                eng_1_or_2_running,
                one_eng_running,
                eng_1_or_2_to_pwr,
            ),
        ) <= 1,
{
}

/// The flight warning computer: owns every sheet and runs one tick of the
/// whole pipeline in dependency order.
pub struct A320FlightWarningComputer {
    pub new_ground_def: NewGroundDef,
    pub ground_detection: GroundDetection,
    pub speed_detection: SpeedDetection,
    pub engines_not_running: EnginesNotRunning,
    pub both_engine_running: BothEngineRunning,
    pub cfm_flight_phases: CfmFlightPhases,
    pub flight_phases_ground: FlightPhasesGround,
}

/// The computer as constructed at startup: every sheet in its initial
/// state.
pub open spec fn fwc_initial() -> A320FlightWarningComputer {
    A320FlightWarningComputer {
        new_ground_def: new_ground_def_initial(),
        ground_detection: ground_detection_initial(),
        speed_detection: speed_detection_initial(),
        engines_not_running: engines_not_running_initial(),
        both_engine_running: both_engine_running_initial(),
        cfm_flight_phases: cfm_flight_phases_initial(),
        flight_phases_ground: flight_phases_ground_initial(),
    }
}

/// The computer after one tick: the sheets advance in dependency order,
/// each reading the outputs the earlier sheets produced in this same tick.
pub open spec fn fwc_next(s: A320FlightWarningComputer, delta: u64, sig: SignalTable) -> A320FlightWarningComputer {
    let new_ground_def = new_ground_def_next(s.new_ground_def, delta, sig);
    let ground_detection = ground_detection_next(
        s.ground_detection,
        delta,
        sig,
        new_ground_def.new_ground,
        new_ground_def.lgciu_12_inv,
    );
    let speed_detection = speed_detection_next(s.speed_detection, delta, sig);
    let engines_not_running = engines_not_running_next(
        s.engines_not_running,
        delta,
        sig,
        ground_detection.ground,
    );
    let both_engine_running = both_engine_running_next(
        s.both_engine_running,
        delta,
        sig,
        engines_not_running.eng_1_not_running,
        engines_not_running.eng_2_not_running,
    );
    let cfm_flight_phases = s.cfm_flight_phases;
    let flight_phases_ground = flight_phases_ground_next(
        s.flight_phases_ground,
        delta,
        sig,
        ground_detection.ground,
        ground_detection.ground_immediate,
        speed_detection.ac_speed_above_80_kt,
        speed_detection.adc_test_inhib,
        both_engine_running.eng_1_and_2_not_running,
        both_engine_running.eng_1_or_2_running,
        both_engine_running.one_eng_running,
        cfm_flight_phases.eng_1_or_2_to_pwr,
    );
    A320FlightWarningComputer {
        new_ground_def,
        ground_detection,
        speed_detection,
        engines_not_running,
        both_engine_running,
        cfm_flight_phases,
        flight_phases_ground,
    }
}

impl A320FlightWarningComputer {
    pub fn new() -> (computer: A320FlightWarningComputer)
        ensures
            computer == fwc_initial(),
    {
        A320FlightWarningComputer {
            new_ground_def: NewGroundDef::new(),
            ground_detection: GroundDetection::new(),
            speed_detection: SpeedDetection::new(),
            engines_not_running: EnginesNotRunning::new(),
            both_engine_running: BothEngineRunning::new(),
            cfm_flight_phases: CfmFlightPhases::new(),
            flight_phases_ground: FlightPhasesGround::new(),
        }
    }

    /// Runs one tick over a snapshot of the input signals.
    pub fn update(&mut self, context: &UpdateContext, signals: &SignalTable)
        ensures
            *final(self) == fwc_next(*old(self), context.delta_ms, *signals),
    {
        self.new_ground_def.update(context, signals);
        let new_ground = self.new_ground_def.new_ground();
        let lgciu_12_inv = self.new_ground_def.lgciu_12_inv();
        self.ground_detection.update(context, signals, new_ground, lgciu_12_inv);
        self.speed_detection.update(context, signals);
        let ground = self.ground_detection.ground();
        self.engines_not_running.update(context, signals, ground);
        let eng_1_not_running = self.engines_not_running.eng_1_not_running();
        let eng_2_not_running = self.engines_not_running.eng_2_not_running();
        self.both_engine_running.update(context, signals, eng_1_not_running, eng_2_not_running);
        self.cfm_flight_phases.update(context);
        let ground_immediate = self.ground_detection.ground_immediate();
        let ac_speed_above_80_kt = self.speed_detection.ac_speed_above_80_kt();
        let adc_test_inhib = self.speed_detection.adc_test_inhib();
        let eng_1_and_2_not_running = self.both_engine_running.eng_1_and_2_not_running();
        let eng_1_or_2_running = self.both_engine_running.eng_1_or_2_running();
        let one_eng_running = self.both_engine_running.one_eng_running();
        let eng_1_or_2_to_pwr = self.cfm_flight_phases.eng_1_or_2_to_pwr();
        self.flight_phases_ground.update(
            context,
            signals,
            ground,
            ground_immediate,
            ac_speed_above_80_kt,
            adc_test_inhib,
            eng_1_and_2_not_running,
            eng_1_or_2_running,
            one_eng_running,
            eng_1_or_2_to_pwr,
        );
    }
}

} // verus!
