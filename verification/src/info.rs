//! The charging state that a scan of the power-supply nodes fills.

use vstd::prelude::*;

verus! {

/// How fast the battery charges, by adapter power.
#[derive(Debug, Clone, Copy, PartialEq, Eq, Structural)]
pub enum ChargeState {
    Unknown,
    Disconnected,
    SlowCharging,
    NormalCharging,
    FastCharging,
    FlashCharging,
    SuperCharging,
}

/// Everything that is known of the charger and the battery.
#[derive(Debug)]
pub struct ChargerInfo {
    pub usb_online: i32,
    pub usb_type: String,
    pub usb_real_type: String,
    pub usb_voltage_now: i32,
    pub usb_current_now: i32,
    pub usb_temp: i32,
    pub connector_temp: i32,
    pub ac_online: i32,
    pub pc_port_online: i32,
    pub wireless_online: i32,
    pub wireless_type: String,
    pub typec_mode: String,
    pub cc_orientation: i32,
    pub battery_present: bool,
    pub battery_status: String,
    pub battery_health: String,
    pub battery_capacity: i32,
    pub battery_temp: i32,
    pub battery_current_now: i32,
    pub battery_voltage_now: i32,
    pub battery_charge_type: String,
    pub battery_technology: String,
    pub charge_full: i32,
    pub charge_full_design: i32,
    pub charge_counter: i32,
    pub cycle_count: i32,
    pub fg_fcc: i32,
    pub fg_rm: i32,
    pub fg_rsoc: i32,
    pub fg_soh: i32,
    pub fg_cycle: i32,
    pub fg_qmax: i32,
    pub fg_ai: i32,
    pub fg_avg_current: i32,
    pub fg_vendor: String,
    pub battery_type: String,
    pub gauge_type: String,
    pub gauge_info: String,
    pub cell1_vol: i32,
    pub cell2_vol: i32,
    pub cell1_rascale: i32,
    pub fast_charge_type: String,
    pub charge_technology: String,
    pub quick_charge_type: String,
    pub pd_verified: i32,
    pub charge_state: ChargeState,
    pub input_current_max: i32,
    pub input_voltage_max: i32,
    pub input_current_settled: i32,
    pub input_voltage_settled: i32,
    pub fastchg_mode: i32,
    pub current_state: String,
    pub sport_mode: i32,
    pub cp_online: i32,
    pub cp_status: String,
    pub cp_bus_voltage: i32,
    pub cp_bus_current: i32,
    pub cp_master_iin: i32,
    pub cp_slave_iin: i32,
    pub adapter_power_w: i32,
    pub remaining_time: i32,
    pub restrict_chg: i32,
    pub input_suspend: i32,
    pub smart_chg: i32,
    pub night_charging: i32,
    pub smart_batt: i32,
    pub die_temperature: i32,
    pub slave_die_temperature: i32,
    pub thermal_board_temp: i32,
    pub batt_sn: String,
    pub authentic: i32,
    pub batt_cont_online: i32,
    pub max_life_temp: i32,
    pub max_life_vol: i32,
    pub over_vol_duration: i32,
    pub moisture_detected: bool,
    pub flash_active: bool,
    pub hifi_connect: bool,
    pub vbus_disable: bool,
    pub otg_ui_support: i32,
    pub fake_soc: i32,
    pub fake_soh: i32,
    pub fake_cycle: i32,
    pub fake_temp: i32,
}

/// A [`ChargerInfo`] with its texts as character sequences.
#[verifier::ext_equal]
pub struct ChargerInfoView {
    pub usb_online: i32,
    pub usb_type: Seq<char>,
    pub usb_real_type: Seq<char>,
    pub usb_voltage_now: i32,
    pub usb_current_now: i32,
    pub usb_temp: i32,
    pub connector_temp: i32,
    pub ac_online: i32,
    pub pc_port_online: i32,
    pub wireless_online: i32,
    pub wireless_type: Seq<char>,
    pub typec_mode: Seq<char>,
    pub cc_orientation: i32,
    pub battery_present: bool,
    pub battery_status: Seq<char>,
    pub battery_health: Seq<char>,
    pub battery_capacity: i32,
    pub battery_temp: i32,
    pub battery_current_now: i32,
    pub battery_voltage_now: i32,
    pub battery_charge_type: Seq<char>,
    pub battery_technology: Seq<char>,
    pub charge_full: i32,
    pub charge_full_design: i32,
    pub charge_counter: i32,
    pub cycle_count: i32,
    pub fg_fcc: i32,
    pub fg_rm: i32,
    pub fg_rsoc: i32,
    pub fg_soh: i32,
    pub fg_cycle: i32,
    pub fg_qmax: i32,
    pub fg_ai: i32,
    pub fg_avg_current: i32,
    pub fg_vendor: Seq<char>,
    pub battery_type: Seq<char>,
    pub gauge_type: Seq<char>,
    pub gauge_info: Seq<char>,
    pub cell1_vol: i32,
    pub cell2_vol: i32,
    pub cell1_rascale: i32,
    pub fast_charge_type: Seq<char>,
    pub charge_technology: Seq<char>,
    pub quick_charge_type: Seq<char>,
    pub pd_verified: i32,
    pub charge_state: ChargeState,
    pub input_current_max: i32,
    pub input_voltage_max: i32,
    pub input_current_settled: i32,
    pub input_voltage_settled: i32,
    pub fastchg_mode: i32,
    pub current_state: Seq<char>,
    pub sport_mode: i32,
    pub cp_online: i32,
    pub cp_status: Seq<char>,
    pub cp_bus_voltage: i32,
    pub cp_bus_current: i32,
    pub cp_master_iin: i32,
    pub cp_slave_iin: i32,
    pub adapter_power_w: i32,
    pub remaining_time: i32,
    pub restrict_chg: i32,
    pub input_suspend: i32,
    pub smart_chg: i32,
    pub night_charging: i32,
    pub smart_batt: i32,
    pub die_temperature: i32,
    pub slave_die_temperature: i32,
    pub thermal_board_temp: i32,
    pub batt_sn: Seq<char>,
    pub authentic: i32,
    pub batt_cont_online: i32,
    pub max_life_temp: i32,
    pub max_life_vol: i32,
    pub over_vol_duration: i32,
    pub moisture_detected: bool,
    pub flash_active: bool,
    pub hifi_connect: bool,
    pub vbus_disable: bool,
    pub otg_ui_support: i32,
    pub fake_soc: i32,
    pub fake_soh: i32,
    pub fake_cycle: i32,
    pub fake_temp: i32,
}

impl View for ChargerInfo {
    type V = ChargerInfoView;

    open spec fn view(&self) -> ChargerInfoView {
        ChargerInfoView {
            usb_online: self.usb_online,
            usb_type: self.usb_type@,
            usb_real_type: self.usb_real_type@,
            usb_voltage_now: self.usb_voltage_now,
            usb_current_now: self.usb_current_now,
            usb_temp: self.usb_temp,
            connector_temp: self.connector_temp,
            ac_online: self.ac_online,
            pc_port_online: self.pc_port_online,
            wireless_online: self.wireless_online,
            wireless_type: self.wireless_type@,
            typec_mode: self.typec_mode@,
            cc_orientation: self.cc_orientation,
            battery_present: self.battery_present,
            battery_status: self.battery_status@,
            battery_health: self.battery_health@,
            battery_capacity: self.battery_capacity,
            battery_temp: self.battery_temp,
            battery_current_now: self.battery_current_now,
            battery_voltage_now: self.battery_voltage_now,
            battery_charge_type: self.battery_charge_type@,
            battery_technology: self.battery_technology@,
            charge_full: self.charge_full,
            charge_full_design: self.charge_full_design,
            charge_counter: self.charge_counter,
            cycle_count: self.cycle_count,
            fg_fcc: self.fg_fcc,
            fg_rm: self.fg_rm,
            fg_rsoc: self.fg_rsoc,
            fg_soh: self.fg_soh,
            fg_cycle: self.fg_cycle,
            fg_qmax: self.fg_qmax,
            fg_ai: self.fg_ai,
            fg_avg_current: self.fg_avg_current,
            fg_vendor: self.fg_vendor@,
            battery_type: self.battery_type@,
            gauge_type: self.gauge_type@,
            gauge_info: self.gauge_info@,
            cell1_vol: self.cell1_vol,
            cell2_vol: self.cell2_vol,
            cell1_rascale: self.cell1_rascale,
            fast_charge_type: self.fast_charge_type@,
            charge_technology: self.charge_technology@,
            quick_charge_type: self.quick_charge_type@,
            pd_verified: self.pd_verified,
            charge_state: self.charge_state,
            input_current_max: self.input_current_max,
            input_voltage_max: self.input_voltage_max,
            input_current_settled: self.input_current_settled,
            input_voltage_settled: self.input_voltage_settled,
            fastchg_mode: self.fastchg_mode,
            current_state: self.current_state@,
            sport_mode: self.sport_mode,
            cp_online: self.cp_online,
            cp_status: self.cp_status@,
            cp_bus_voltage: self.cp_bus_voltage,
            cp_bus_current: self.cp_bus_current,
            cp_master_iin: self.cp_master_iin,
            cp_slave_iin: self.cp_slave_iin,
            adapter_power_w: self.adapter_power_w,
            remaining_time: self.remaining_time,
            restrict_chg: self.restrict_chg,
            input_suspend: self.input_suspend,
            smart_chg: self.smart_chg,
            night_charging: self.night_charging,
            smart_batt: self.smart_batt,
            die_temperature: self.die_temperature,
            slave_die_temperature: self.slave_die_temperature,
            thermal_board_temp: self.thermal_board_temp,
            batt_sn: self.batt_sn@,
            authentic: self.authentic,
            batt_cont_online: self.batt_cont_online,
            max_life_temp: self.max_life_temp,
            max_life_vol: self.max_life_vol,
            over_vol_duration: self.over_vol_duration,
            moisture_detected: self.moisture_detected,
            flash_active: self.flash_active,
            hifi_connect: self.hifi_connect,
            vbus_disable: self.vbus_disable,
            otg_ui_support: self.otg_ui_support,
            fake_soc: self.fake_soc,
            fake_soh: self.fake_soh,
            fake_cycle: self.fake_cycle,
            fake_temp: self.fake_temp,
        }
    }
}

/// What is known before the first scan: nothing, and no metric is made up.
pub open spec fn unscanned_info() -> ChargerInfoView {
    ChargerInfoView {
        usb_online: 0,
        usb_type: Seq::empty(),
        usb_real_type: Seq::empty(),
        usb_voltage_now: 0,
        usb_current_now: 0,
        usb_temp: 0,
        connector_temp: 0,
        ac_online: 0,
        pc_port_online: 0,
        wireless_online: 0,
        wireless_type: Seq::empty(),
        typec_mode: Seq::empty(),
        cc_orientation: 0,
        battery_present: true,
        battery_status: "Unknown"@,
        battery_health: "Unknown"@,
        battery_capacity: 0,
        battery_temp: 0,
        battery_current_now: 0,
        battery_voltage_now: 0,
        battery_charge_type: "Unknown"@,
        battery_technology: Seq::empty(),
        charge_full: 0,
        charge_full_design: 0,
        charge_counter: 0,
        cycle_count: 0,
        fg_fcc: 0,
        fg_rm: 0,
        fg_rsoc: 0,
        fg_soh: 0,
        fg_cycle: 0,
        fg_qmax: 0,
        fg_ai: 0,
        fg_avg_current: 0,
        fg_vendor: Seq::empty(),
        battery_type: Seq::empty(),
        gauge_type: Seq::empty(),
        gauge_info: Seq::empty(),
        cell1_vol: 0,
        cell2_vol: 0,
        cell1_rascale: 0,
        fast_charge_type: "0"@,
        charge_technology: "0"@,
        quick_charge_type: Seq::empty(),
        pd_verified: 0,
        charge_state: ChargeState::Unknown,
        input_current_max: 0,
        input_voltage_max: 0,
        input_current_settled: 0,
        input_voltage_settled: 0,
        fastchg_mode: 0,
        current_state: Seq::empty(),
        sport_mode: 0,
        cp_online: 0,
        cp_status: Seq::empty(),
        cp_bus_voltage: 0,
        cp_bus_current: 0,
        cp_master_iin: 0,
        cp_slave_iin: 0,
        adapter_power_w: 0,
        remaining_time: 0,
        restrict_chg: 0,
        input_suspend: 0,
        smart_chg: 0,
        night_charging: 0,
        smart_batt: 0,
        die_temperature: 0,
        slave_die_temperature: 0,
        thermal_board_temp: 0,
        batt_sn: Seq::empty(),
        authentic: 1,
        batt_cont_online: 0,
        max_life_temp: 0,
        max_life_vol: 0,
        over_vol_duration: 0,
        moisture_detected: false,
        flash_active: false,
        hifi_connect: false,
        vbus_disable: false,
        otg_ui_support: 0,
        fake_soc: 0,
        fake_soh: 0,
        fake_cycle: 0,
        fake_temp: 0,
    }
}

impl Default for ChargerInfo {
    fn default() -> (r: Self)
        ensures
            r@ == unscanned_info(),
    {
        ChargerInfo {
            usb_online: 0,
            usb_type: String::new(),
            usb_real_type: String::new(),
            usb_voltage_now: 0,
            usb_current_now: 0,
            usb_temp: 0,
            connector_temp: 0,
            ac_online: 0,
            pc_port_online: 0,
            wireless_online: 0,
            wireless_type: String::new(),
            typec_mode: String::new(),
            cc_orientation: 0,
            battery_present: true,
            battery_status: "Unknown".to_owned(),
            battery_health: "Unknown".to_owned(),
            battery_capacity: 0,
            battery_temp: 0,
            battery_current_now: 0,
            battery_voltage_now: 0,
            battery_charge_type: "Unknown".to_owned(),
            battery_technology: String::new(),
            charge_full: 0,
            charge_full_design: 0,
            charge_counter: 0,
            cycle_count: 0,
            fg_fcc: 0,
            fg_rm: 0,
            fg_rsoc: 0,
            fg_soh: 0,
            fg_cycle: 0,
            fg_qmax: 0,
            fg_ai: 0,
            fg_avg_current: 0,
            fg_vendor: String::new(),
            battery_type: String::new(),
            gauge_type: String::new(),
            gauge_info: String::new(),
            cell1_vol: 0,
            cell2_vol: 0,
            cell1_rascale: 0,
            fast_charge_type: "0".to_owned(),
            charge_technology: "0".to_owned(),
            quick_charge_type: String::new(),
            pd_verified: 0,
            charge_state: ChargeState::Unknown,
            input_current_max: 0,
            input_voltage_max: 0,
            input_current_settled: 0,
            input_voltage_settled: 0,
            fastchg_mode: 0,
            current_state: String::new(),
            sport_mode: 0,
            cp_online: 0,
            cp_status: String::new(),
            cp_bus_voltage: 0,
            cp_bus_current: 0,
            cp_master_iin: 0,
            cp_slave_iin: 0,
            adapter_power_w: 0,
            remaining_time: 0,
            restrict_chg: 0,
            input_suspend: 0,
            smart_chg: 0,
            night_charging: 0,
            smart_batt: 0,
            die_temperature: 0,
            slave_die_temperature: 0,
            thermal_board_temp: 0,
            batt_sn: String::new(),
            authentic: 1,
            batt_cont_online: 0,
            max_life_temp: 0,
            max_life_vol: 0,
            over_vol_duration: 0,
            moisture_detected: false,
            flash_active: false,
            hifi_connect: false,
            vbus_disable: false,
            otg_ui_support: 0,
            fake_soc: 0,
            fake_soh: 0,
            fake_cycle: 0,
            fake_temp: 0,
        }
    }
}

impl Clone for ChargerInfo {
    fn clone(&self) -> (r: Self)
        ensures
            r@ == self@,
    {
        ChargerInfo {
            usb_online: self.usb_online,
            usb_type: self.usb_type.clone(),
            usb_real_type: self.usb_real_type.clone(),
            usb_voltage_now: self.usb_voltage_now,
            usb_current_now: self.usb_current_now,
            usb_temp: self.usb_temp,
            connector_temp: self.connector_temp,
            ac_online: self.ac_online,
            pc_port_online: self.pc_port_online,
            wireless_online: self.wireless_online,
            wireless_type: self.wireless_type.clone(),
            typec_mode: self.typec_mode.clone(),
            cc_orientation: self.cc_orientation,
            battery_present: self.battery_present,
            battery_status: self.battery_status.clone(),
            battery_health: self.battery_health.clone(),
            battery_capacity: self.battery_capacity,
            battery_temp: self.battery_temp,
            battery_current_now: self.battery_current_now,
            battery_voltage_now: self.battery_voltage_now,
            battery_charge_type: self.battery_charge_type.clone(),
            battery_technology: self.battery_technology.clone(),
            charge_full: self.charge_full,
            charge_full_design: self.charge_full_design,
            charge_counter: self.charge_counter,
            cycle_count: self.cycle_count,
            fg_fcc: self.fg_fcc,
            fg_rm: self.fg_rm,
            fg_rsoc: self.fg_rsoc,
            fg_soh: self.fg_soh,
            fg_cycle: self.fg_cycle,
            fg_qmax: self.fg_qmax,
            fg_ai: self.fg_ai,
            fg_avg_current: self.fg_avg_current,
            fg_vendor: self.fg_vendor.clone(),
            battery_type: self.battery_type.clone(),
            gauge_type: self.gauge_type.clone(),
            gauge_info: self.gauge_info.clone(),
            cell1_vol: self.cell1_vol,
            cell2_vol: self.cell2_vol,
            cell1_rascale: self.cell1_rascale,
            fast_charge_type: self.fast_charge_type.clone(),
            charge_technology: self.charge_technology.clone(),
            quick_charge_type: self.quick_charge_type.clone(),
            pd_verified: self.pd_verified,
            charge_state: self.charge_state,
            input_current_max: self.input_current_max,
            input_voltage_max: self.input_voltage_max,
            input_current_settled: self.input_current_settled,
            input_voltage_settled: self.input_voltage_settled,
            fastchg_mode: self.fastchg_mode,
            current_state: self.current_state.clone(),
            sport_mode: self.sport_mode,
            cp_online: self.cp_online,
            cp_status: self.cp_status.clone(),
            cp_bus_voltage: self.cp_bus_voltage,
            cp_bus_current: self.cp_bus_current,
            cp_master_iin: self.cp_master_iin,
            cp_slave_iin: self.cp_slave_iin,
            adapter_power_w: self.adapter_power_w,
            remaining_time: self.remaining_time,
            restrict_chg: self.restrict_chg,
            input_suspend: self.input_suspend,
            smart_chg: self.smart_chg,
            night_charging: self.night_charging,
            smart_batt: self.smart_batt,
            die_temperature: self.die_temperature,
            slave_die_temperature: self.slave_die_temperature,
            thermal_board_temp: self.thermal_board_temp,
            batt_sn: self.batt_sn.clone(),
            authentic: self.authentic,
            batt_cont_online: self.batt_cont_online,
            max_life_temp: self.max_life_temp,
            max_life_vol: self.max_life_vol,
            over_vol_duration: self.over_vol_duration,
            moisture_detected: self.moisture_detected,
            flash_active: self.flash_active,
            hifi_connect: self.hifi_connect,
            vbus_disable: self.vbus_disable,
            otg_ui_support: self.otg_ui_support,
            fake_soc: self.fake_soc,
            fake_soh: self.fake_soh,
            fake_cycle: self.fake_cycle,
            fake_temp: self.fake_temp,
        }
    }
}

impl ChargerInfoView {
    /// A power source is connected.
    pub open spec fn online(self) -> bool {
        self.usb_online != 0 || self.ac_online != 0 || self.wireless_online != 0
    }

    /// The USB type that counts: the real type where it is known.
    pub open spec fn effective_usb_type(self) -> Seq<char> {
        if self.usb_real_type.len() > 0 {
            self.usb_real_type
        } else {
            self.usb_type
        }
    }
}

impl ChargerInfo {
    /// A power source is connected.
    pub fn online(&self) -> (r: bool)
        ensures
            r == self@.online(),
    {
        self.usb_online != 0 || self.ac_online != 0 || self.wireless_online != 0
    }

    /// The USB type that counts: the real type where it is known.
    pub fn effective_usb_type(&self) -> (r: &str)
        ensures
            r@ == self@.effective_usb_type(),
    {
        if !self.usb_real_type.as_str().is_empty() {
            self.usb_real_type.as_str()
        } else {
            self.usb_type.as_str()
        }
    }
}

} // verus!
