//! The closed set of resource kinds the application can watch, with the
//! catalog keys and unit used when an icon for a kind is drawn.

use vstd::prelude::*;

verus! {

/// A kind of resource reading shown as its own tray icon.
#[derive(Clone, Copy, Debug, PartialEq, Eq, Structural)]
pub enum MonitorTypeEnum {
    CpuUsage,
    RamUsage,
}

/// The fixed order in which the kinds are declared, used wherever the
/// application walks all of them (tray construction, settings rows).
pub open spec fn all_monitor_types() -> Seq<MonitorTypeEnum> {
    seq![MonitorTypeEnum::CpuUsage, MonitorTypeEnum::RamUsage]
}

/// The message-catalog key of the label drawn onto a kind's icon.
pub open spec fn icon_label_key_spec(t: MonitorTypeEnum) -> Seq<char> {
    match t {
        MonitorTypeEnum::CpuUsage => "icon-label-cpu-usage"@,
        MonitorTypeEnum::RamUsage => "icon-label-ram-usage"@,
    }
}

/// The message-catalog key of a kind's tray tooltip.
pub open spec fn tray_tooltip_key_spec(t: MonitorTypeEnum) -> Seq<char> {
    match t {
        MonitorTypeEnum::CpuUsage => "tray-tooltip-cpu-usage"@,
        MonitorTypeEnum::RamUsage => "tray-tooltip-ram-usage"@,
    }
}

impl MonitorTypeEnum {
    /// Every kind, in declaration order.
    pub fn all() -> (r: Vec<MonitorTypeEnum>)
        ensures
            r@ == all_monitor_types(),
    {
        let mut v: Vec<MonitorTypeEnum> = Vec::new();
        v.push(MonitorTypeEnum::CpuUsage);
        v.push(MonitorTypeEnum::RamUsage);
        proof {
            assert(v@ =~= all_monitor_types());
        }
        v
    }

    /// Catalog key of the icon label for this kind.
    pub fn icon_label_key(&self) -> (r: &'static str)
        ensures
            r@ == icon_label_key_spec(*self),
    {
        match self {
            MonitorTypeEnum::CpuUsage => "icon-label-cpu-usage",
            MonitorTypeEnum::RamUsage => "icon-label-ram-usage",
        }
    }

    /// Catalog key of the tray tooltip for this kind.
    pub fn tray_tooltip_key(&self) -> (r: &'static str)
        ensures
            r@ == tray_tooltip_key_spec(*self),
    {
        match self {
            MonitorTypeEnum::CpuUsage => "tray-tooltip-cpu-usage",
            MonitorTypeEnum::RamUsage => "tray-tooltip-ram-usage",
        }
    }

    /// The unit suffix drawn after a reading of this kind: every current kind
    /// is a percentage.
    pub fn unit(&self) -> (r: &'static str)
        ensures
            r@ == "%"@,
    {
        match self {
            MonitorTypeEnum::CpuUsage | MonitorTypeEnum::RamUsage => "%",
        }
    }
}

} // verus!
