//! The snapshot that answers fast-charge questions, and the probe that tells
//! whether it is out of date.

use crate::adapter::Adapter;
use crate::info::{ChargerInfo, ChargerInfoView};
use crate::nodes::opt_view;
use crate::text::{
    as_i32, contains, contains_text, eq_ascii_upper, parse_i32, text_eq, trim, trimmed,
    unicode_lower, upper_text,
};
use vstd::prelude::*;

verus! {

/// The USB types of a port that carries data: a computer's, most often.
pub open spec fn data_port_type(usb_type: Seq<char>) -> bool {
    let name = upper_text(trimmed(usb_type));
    ||| name == "USB"@
    ||| name == "SDP"@
    ||| name == "USB_SDP"@
    ||| name == "CDP"@
    ||| name == "USB_CDP"@
    ||| name == "PC"@
    ||| name == "PC_PORT"@
}

pub fn is_data_port_usb_type(value: &str) -> (r: bool)
    ensures
        r == data_port_type(value@),
{
    let name: &str = trim(value);
    eq_ascii_upper(name, "USB") || eq_ascii_upper(name, "SDP") || eq_ascii_upper(name, "USB_SDP")
        || eq_ascii_upper(name, "CDP") || eq_ascii_upper(name, "USB_CDP") || eq_ascii_upper(
        name,
        "PC",
    ) || eq_ascii_upper(name, "PC_PORT")
}

/// The fast-charge state at the end of a scan.
#[derive(Debug)]
pub struct FastChargeSnapshot {
    pub online: bool,
    pub usb_online: i32,
    pub ac_online: i32,
    pub wireless_online: i32,
    pub fast_type: i32,
    pub charge_tech: i32,
    pub quick_charge_type: String,
    pub pd_verified: i32,
    pub cp_online: i32,
    pub fastchg_mode: i32,
    pub sport_mode: i32,
    pub adapter_power_w: i32,
    pub usb_type: String,
    pub pc_port_online: i32,
}

/// A [`FastChargeSnapshot`] with its texts as character sequences.
#[verifier::ext_equal]
pub struct FastChargeSnapshotView {
    pub online: bool,
    pub usb_online: i32,
    pub ac_online: i32,
    pub wireless_online: i32,
    pub fast_type: i32,
    pub charge_tech: i32,
    pub quick_charge_type: Seq<char>,
    pub pd_verified: i32,
    pub cp_online: i32,
    pub fastchg_mode: i32,
    pub sport_mode: i32,
    pub adapter_power_w: i32,
    pub usb_type: Seq<char>,
    pub pc_port_online: i32,
}

impl View for FastChargeSnapshot {
    type V = FastChargeSnapshotView;

    open spec fn view(&self) -> FastChargeSnapshotView {
        FastChargeSnapshotView {
            online: self.online,
            usb_online: self.usb_online,
            ac_online: self.ac_online,
            wireless_online: self.wireless_online,
            fast_type: self.fast_type,
            charge_tech: self.charge_tech,
            quick_charge_type: self.quick_charge_type@,
            pd_verified: self.pd_verified,
            cp_online: self.cp_online,
            fastchg_mode: self.fastchg_mode,
            sport_mode: self.sport_mode,
            adapter_power_w: self.adapter_power_w,
            usb_type: self.usb_type@,
            pc_port_online: self.pc_port_online,
        }
    }
}

impl Default for FastChargeSnapshot {
    fn default() -> (r: Self)
        ensures
            r@ == (FastChargeSnapshotView {
                online: false,
                usb_online: 0,
                ac_online: 0,
                wireless_online: 0,
                fast_type: 0,
                charge_tech: 0,
                quick_charge_type: Seq::empty(),
                pd_verified: 0,
                cp_online: 0,
                fastchg_mode: 0,
                sport_mode: 0,
                adapter_power_w: 0,
                usb_type: Seq::empty(),
                pc_port_online: 0,
            }),
    {
        FastChargeSnapshot {
            online: false,
            usb_online: 0,
            ac_online: 0,
            wireless_online: 0,
            fast_type: 0,
            charge_tech: 0,
            quick_charge_type: String::new(),
            pd_verified: 0,
            cp_online: 0,
            fastchg_mode: 0,
            sport_mode: 0,
            adapter_power_w: 0,
            usb_type: String::new(),
            pc_port_online: 0,
        }
    }
}

impl Clone for FastChargeSnapshot {
    fn clone(&self) -> (r: Self)
        ensures
            r@ == self@,
    {
        FastChargeSnapshot {
            online: self.online,
            usb_online: self.usb_online,
            ac_online: self.ac_online,
            wireless_online: self.wireless_online,
            fast_type: self.fast_type,
            charge_tech: self.charge_tech,
            quick_charge_type: self.quick_charge_type.clone(),
            pd_verified: self.pd_verified,
            cp_online: self.cp_online,
            fastchg_mode: self.fastchg_mode,
            sport_mode: self.sport_mode,
            adapter_power_w: self.adapter_power_w,
            usb_type: self.usb_type.clone(),
            pc_port_online: self.pc_port_online,
        }
    }
}

impl FastChargeSnapshotView {
    /// The phone hangs on a port that carries data.
    pub open spec fn on_data_port(self) -> bool {
        self.usb_online != 0 && (self.pc_port_online != 0 || data_port_type(self.usb_type))
    }

    /// A charger is connected, and it is no data port.
    pub open spec fn on_charger(self) -> bool {
        self.online && !self.on_data_port()
    }

    pub open spec fn fast_charge(self) -> bool {
        self.on_charger() && {
            ||| self.fast_type > 0
            ||| self.fastchg_mode != 0
            ||| self.sport_mode != 0
            ||| self.pd_verified != 0
            ||| self.cp_online != 0
            ||| self.adapter_power_w >= 10
        }
    }

    pub open spec fn svooc_active(self) -> bool {
        self.on_charger() && {
            ||| self.fast_type >= 2
            ||| self.fastchg_mode != 0
            ||| self.sport_mode != 0
            ||| self.cp_online != 0
            ||| self.adapter_power_w >= 20
        }
    }

    /// With `usb` and `quick` the two type names in lower case.
    pub open spec fn pps_active_by(self, usb: Seq<char>, quick: Seq<char>) -> bool {
        self.on_charger() && {
            ||| self.charge_tech >= 3
            ||| self.pd_verified != 0
            ||| contains_text(usb, "pd"@)
            ||| contains_text(usb, "pps"@)
            ||| contains_text(quick, "pd"@)
            ||| contains_text(quick, "pps"@)
        }
    }

    pub open spec fn pps_active(self) -> bool {
        self.pps_active_by(unicode_lower(self.usb_type), unicode_lower(self.quick_charge_type))
    }

    pub open spec fn shows_power(self) -> bool {
        !self.on_data_port() && trimmed(self.quick_charge_type) == "4"@
    }
}

impl FastChargeSnapshot {
    pub fn is_data_port(&self) -> (r: bool)
        ensures
            r == self@.on_data_port(),
    {
        self.usb_online != 0 && (self.pc_port_online != 0 || is_data_port_usb_type(
            self.usb_type.as_str(),
        ))
    }

    pub fn is_fast_charge(&self) -> (r: bool)
        ensures
            r == self@.fast_charge(),
    {
        self.online && !self.is_data_port() && (self.fast_type > 0 || self.fastchg_mode != 0
            || self.sport_mode != 0 || self.pd_verified != 0 || self.cp_online != 0
            || self.adapter_power_w >= 10)
    }

    pub fn is_svooc_active(&self) -> (r: bool)
        ensures
            r == self@.svooc_active(),
    {
        self.online && !self.is_data_port() && (self.fast_type >= 2 || self.fastchg_mode != 0
            || self.sport_mode != 0 || self.cp_online != 0 || self.adapter_power_w >= 20)
    }

    pub fn is_pps_active(&self) -> (r: bool)
        ensures
            r == self@.pps_active(),
    {
        let usb: String = self.usb_type.as_str().to_lowercase();
        let quick: String = self.quick_charge_type.as_str().to_lowercase();
        self.is_pps_active_by(usb.as_str(), quick.as_str())
    }

    /// [`Self::is_pps_active`], with the two type names in lower case.
    pub fn is_pps_active_by(&self, usb: &str, quick: &str) -> (r: bool)
        ensures
            r == self@.pps_active_by(usb@, quick@),
    {
        self.online && !self.is_data_port() && (self.charge_tech >= 3 || self.pd_verified != 0
            || contains(usb, "pd") || contains(usb, "pps") || contains(quick, "pd") || contains(
            quick,
            "pps",
        ))
    }

    pub fn should_show_power(&self) -> (r: bool)
        ensures
            r == self@.shows_power(),
    {
        !self.is_data_port() && text_eq(trim(self.quick_charge_type.as_str()), "4")
    }
}

/// The number that a text writes between white space, or 0.
pub open spec fn int_or_zero(s: Seq<char>) -> i32 {
    match as_i32(trimmed(s)) {
        Some(v) => v,
        None => 0,
    }
}

pub fn trimmed_int_or_zero(s: &str) -> (r: i32)
    ensures
        r == int_or_zero(s@),
{
    match parse_i32(trim(s)) {
        Some(v) => v,
        None => 0,
    }
}

/// The snapshot that a charging state gives.
pub open spec fn snapshot_of(info: ChargerInfoView) -> FastChargeSnapshotView {
    FastChargeSnapshotView {
        online: info.online(),
        usb_online: info.usb_online,
        ac_online: info.ac_online,
        wireless_online: info.wireless_online,
        fast_type: int_or_zero(info.fast_charge_type),
        charge_tech: int_or_zero(info.charge_technology),
        quick_charge_type: info.quick_charge_type,
        pd_verified: info.pd_verified,
        cp_online: info.cp_online,
        fastchg_mode: info.fastchg_mode,
        sport_mode: info.sport_mode,
        adapter_power_w: info.adapter_power_w,
        usb_type: info.effective_usb_type(),
        pc_port_online: info.pc_port_online,
    }
}

/// A value was read, and it differs from the known one.
pub open spec fn moved<T>(read: Option<T>, known: T) -> bool {
    match read {
        Some(v) => v != known,
        None => false,
    }
}

/// What a light probe of the power source read differs from the snapshot. What
/// could not be read counts as unchanged.
pub open spec fn probe_changed(
    snapshot: FastChargeSnapshotView,
    usb_online: Option<i32>,
    ac_online: Option<i32>,
    wireless_online: Option<i32>,
    pc_port_online: Option<i32>,
    quick_charge_type: Option<Seq<char>>,
    usb_type: Option<Seq<char>>,
) -> bool {
    ||| moved(usb_online, snapshot.usb_online)
    ||| moved(ac_online, snapshot.ac_online)
    ||| moved(wireless_online, snapshot.wireless_online)
    ||| moved(pc_port_online, snapshot.pc_port_online)
    ||| moved(quick_charge_type, snapshot.quick_charge_type)
    ||| moved(usb_type, snapshot.usb_type)
}

fn int_moved(read: Option<i32>, known: i32) -> (r: bool)
    ensures
        r == moved(read, known),
{
    match read {
        Some(v) => v != known,
        None => false,
    }
}

fn is_text_moved(read: Option<&str>, known: &String) -> (r: bool)
    ensures
        r == moved(opt_view(read), known@),
{
    match read {
        Some(v) => !text_eq(v, known.as_str()),
        None => false,
    }
}

impl Adapter {
    pub fn fast_charge_snapshot_from_info(info: &ChargerInfo) -> (r: FastChargeSnapshot)
        ensures
            r@ == snapshot_of(info@),
    {
        FastChargeSnapshot {
            online: info.online(),
            usb_online: info.usb_online,
            ac_online: info.ac_online,
            wireless_online: info.wireless_online,
            fast_type: trimmed_int_or_zero(info.fast_charge_type.as_str()),
            charge_tech: trimmed_int_or_zero(info.charge_technology.as_str()),
            quick_charge_type: info.quick_charge_type.clone(),
            pd_verified: info.pd_verified,
            cp_online: info.cp_online,
            fastchg_mode: info.fastchg_mode,
            sport_mode: info.sport_mode,
            adapter_power_w: info.adapter_power_w,
            usb_type: info.effective_usb_type().to_owned(),
            pc_port_online: info.pc_port_online,
        }
    }

    /// Whether a light probe of the power source found a change. What could
    /// not be read counts as unchanged.
    pub fn power_source_probe_values_changed(
        snapshot: &FastChargeSnapshot,
        usb_online: Option<i32>,
        ac_online: Option<i32>,
        wireless_online: Option<i32>,
        pc_port_online: Option<i32>,
        quick_charge_type: Option<&str>,
        usb_type: Option<&str>,
    ) -> (r: bool)
        ensures
            r == probe_changed(
                snapshot@,
                usb_online,
                ac_online,
                wireless_online,
                pc_port_online,
                opt_view(quick_charge_type),
                opt_view(usb_type),
            ),
    {
        int_moved(usb_online, snapshot.usb_online) || int_moved(ac_online, snapshot.ac_online)
            || int_moved(wireless_online, snapshot.wireless_online) || int_moved(
            pc_port_online,
            snapshot.pc_port_online,
        ) || is_text_moved(quick_charge_type, &snapshot.quick_charge_type) || is_text_moved(
            usb_type,
            &snapshot.usb_type,
        )
    }
}

// ── laws ──

/// A probe that reads nothing reports no change, nor does one that reads what
/// is known.
pub proof fn unchanged_probe_reports_no_change(snapshot: FastChargeSnapshotView)
    ensures
        !probe_changed(snapshot, None, None, None, None, None, None),
        !probe_changed(
            snapshot,
            Some(snapshot.usb_online),
            Some(snapshot.ac_online),
            Some(snapshot.wireless_online),
            Some(snapshot.pc_port_online),
            Some(snapshot.quick_charge_type),
            Some(snapshot.usb_type),
        ),
{
}

/// On a data port nothing counts as fast charging, whatever evidence of it is
/// left over, and no power is shown.
pub proof fn data_port_suppresses_fast_charge(snapshot: FastChargeSnapshotView)
    requires
        snapshot.on_data_port(),
    ensures
        !snapshot.fast_charge(),
        !snapshot.svooc_active(),
        !snapshot.pps_active(),
        !snapshot.shows_power(),
{
}

/// Without a power source nothing counts as fast charging, whatever evidence
/// of it is left over.
pub proof fn offline_suppresses_fast_charge(snapshot: FastChargeSnapshotView)
    requires
        !snapshot.online,
    ensures
        !snapshot.fast_charge(),
        !snapshot.svooc_active(),
        !snapshot.pps_active(),
{
}

/// Active SVOOC charging is fast charging.
pub proof fn svooc_is_fast_charge(snapshot: FastChargeSnapshotView)
    requires
        snapshot.svooc_active(),
    ensures
        snapshot.fast_charge(),
{
}

/// A probe that read another value than the known one, of any one of its six
/// sources, reports a change, whatever it read of the others.
pub proof fn any_changed_reading_is_a_change(
    snapshot: FastChargeSnapshotView,
    usb_online: Option<i32>,
    ac_online: Option<i32>,
    wireless_online: Option<i32>,
    pc_port_online: Option<i32>,
    quick_charge_type: Option<Seq<char>>,
    usb_type: Option<Seq<char>>,
)
    requires
        ({
            ||| usb_online is Some && usb_online != Some(snapshot.usb_online)
            ||| ac_online is Some && ac_online != Some(snapshot.ac_online)
            ||| wireless_online is Some && wireless_online != Some(snapshot.wireless_online)
            ||| pc_port_online is Some && pc_port_online != Some(snapshot.pc_port_online)
            ||| quick_charge_type is Some && quick_charge_type != Some(snapshot.quick_charge_type)
            ||| usb_type is Some && usb_type != Some(snapshot.usb_type)
        }),
    ensures
        probe_changed(
            snapshot,
            usb_online,
            ac_online,
            wireless_online,
            pc_port_online,
            quick_charge_type,
            usb_type,
        ),
{
}

/// A probe that read the known value of each source, or could not read it,
/// reports no change.
pub proof fn known_readings_are_no_change(
    snapshot: FastChargeSnapshotView,
    usb_online: Option<i32>,
    ac_online: Option<i32>,
    wireless_online: Option<i32>,
    pc_port_online: Option<i32>,
    quick_charge_type: Option<Seq<char>>,
    usb_type: Option<Seq<char>>,
)
    requires
        usb_online is None || usb_online == Some(snapshot.usb_online),
        ac_online is None || ac_online == Some(snapshot.ac_online),
        wireless_online is None || wireless_online == Some(snapshot.wireless_online),
        pc_port_online is None || pc_port_online == Some(snapshot.pc_port_online),
        quick_charge_type is None || quick_charge_type == Some(snapshot.quick_charge_type),
        usb_type is None || usb_type == Some(snapshot.usb_type),
    ensures
        !probe_changed(
            snapshot,
            usb_online,
            ac_online,
            wireless_online,
            pc_port_online,
            quick_charge_type,
            usb_type,
        ),
{
}

/// Any one piece of evidence makes fast charging of a charger: a type, a mode, a
/// negotiated protocol, a charge pump, or 10 W. Without any there is none.
pub proof fn any_evidence_is_fast_charge(snapshot: FastChargeSnapshotView)
    requires
        snapshot.online,
        !snapshot.on_data_port(),
    ensures
        snapshot.fast_type >= 1 ==> snapshot.fast_charge(),
        snapshot.fastchg_mode != 0 ==> snapshot.fast_charge(),
        snapshot.sport_mode != 0 ==> snapshot.fast_charge(),
        snapshot.pd_verified != 0 ==> snapshot.fast_charge(),
        snapshot.cp_online != 0 ==> snapshot.fast_charge(),
        snapshot.adapter_power_w >= 10 ==> snapshot.fast_charge(),
        snapshot.fast_type <= 0 && snapshot.fastchg_mode == 0 && snapshot.sport_mode == 0
            && snapshot.pd_verified == 0 && snapshot.cp_online == 0 && snapshot.adapter_power_w <= 9
            ==> !snapshot.fast_charge(),
{
}

/// SVOOC takes the second type at least, a mode, a charge pump, or 20 W; a
/// negotiated protocol alone is none.
pub proof fn evidence_of_svooc(snapshot: FastChargeSnapshotView)
    requires
        snapshot.online,
        !snapshot.on_data_port(),
    ensures
        snapshot.fast_type >= 2 ==> snapshot.svooc_active(),
        snapshot.fastchg_mode != 0 ==> snapshot.svooc_active(),
        snapshot.sport_mode != 0 ==> snapshot.svooc_active(),
        snapshot.cp_online != 0 ==> snapshot.svooc_active(),
        snapshot.adapter_power_w >= 20 ==> snapshot.svooc_active(),
        snapshot.fast_type <= 1 && snapshot.fastchg_mode == 0 && snapshot.sport_mode == 0
            && snapshot.cp_online == 0 && snapshot.adapter_power_w <= 19
            ==> !snapshot.svooc_active(),
{
}

/// PPS takes the third technology at least, a negotiated protocol, or the name of
/// one in the USB type or in the quick-charge type.
pub proof fn evidence_of_pps(snapshot: FastChargeSnapshotView, usb: Seq<char>, quick: Seq<char>)
    requires
        snapshot.online,
        !snapshot.on_data_port(),
    ensures
        snapshot.charge_tech >= 3 ==> snapshot.pps_active_by(usb, quick),
        snapshot.pd_verified != 0 ==> snapshot.pps_active_by(usb, quick),
        contains_text(usb, "pd"@) || contains_text(usb, "pps"@) ==> snapshot.pps_active_by(
            usb,
            quick,
        ),
        contains_text(quick, "pd"@) || contains_text(quick, "pps"@) ==> snapshot.pps_active_by(
            usb,
            quick,
        ),
        snapshot.charge_tech <= 2 && snapshot.pd_verified == 0 && !contains_text(usb, "pd"@)
            && !contains_text(usb, "pps"@) && !contains_text(quick, "pd"@) && !contains_text(
            quick,
            "pps"@,
        ) ==> !snapshot.pps_active_by(usb, quick),
        snapshot.pps_active() == snapshot.pps_active_by(
            unicode_lower(snapshot.usb_type),
            unicode_lower(snapshot.quick_charge_type),
        ),
{
}

/// The phone is on a computer's port where USB is connected and either the port
/// or the type says so; an idle port or a charger beside it does not matter.
pub proof fn data_port_takes_usb(snapshot: FastChargeSnapshotView)
    ensures
        snapshot.usb_online == 0 ==> !snapshot.on_data_port(),
        snapshot.usb_online != 0 && snapshot.pc_port_online != 0 ==> snapshot.on_data_port(),
        snapshot.usb_online != 0 && data_port_type(snapshot.usb_type) ==> snapshot.on_data_port(),
        snapshot.pc_port_online == 0 && !data_port_type(snapshot.usb_type)
            ==> !snapshot.on_data_port(),
{
}

/// Power is shown of the fourth quick-charge type, and of no other, off a
/// computer's port.
pub proof fn power_is_shown_of_the_fourth_type(snapshot: FastChargeSnapshotView)
    ensures
        snapshot.shows_power() ==> trimmed(snapshot.quick_charge_type) == "4"@,
        trimmed(snapshot.quick_charge_type) == "4"@ ==> snapshot.shows_power()
            == !snapshot.on_data_port(),
{
}

/// The types of the snapshot are the numbers that the state writes, and 0 where
/// it writes none.
pub proof fn snapshot_reads_the_types(info: ChargerInfoView, fast_type: i32, technology: i32)
    ensures
        as_i32(trimmed(info.fast_charge_type)) == Some(fast_type) ==> snapshot_of(info).fast_type
            == fast_type,
        as_i32(trimmed(info.fast_charge_type)) is None ==> snapshot_of(info).fast_type == 0,
        as_i32(trimmed(info.charge_technology)) == Some(technology) ==> snapshot_of(
            info,
        ).charge_tech == technology,
        as_i32(trimmed(info.charge_technology)) is None ==> snapshot_of(info).charge_tech == 0,
{
}

} // verus!
