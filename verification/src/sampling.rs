//! The decision half of the refresh work: which monitor kinds are sampled
//! on a due tick, and what each tray icon does with the readings.
//!
//! The sampling collaborator reads the actual values and the icon
//! collaborator draws them; both follow the plans computed here from the
//! active-monitor set alone.

use vstd::prelude::*;

use crate::config::MonitorSet;
use crate::monitor_type::{all_monitor_types, MonitorTypeEnum};

verus! {

/// What one tray icon does on a refresh: whether it is visible at all, and
/// whether a fresh reading is drawn onto it. An inactive kind's icon is
/// hidden and left undrawn; an active kind without a fresh reading stays
/// visible with its old picture.
#[derive(Clone, Copy, Debug, PartialEq, Eq, Structural)]
pub struct TrayItemPlan {
    pub monitor_type: MonitorTypeEnum,
    pub visible: bool,
    pub draw_icon: bool,
}

/// Whether `t` occurs in `sampled`.
pub open spec fn was_sampled(sampled: Seq<MonitorTypeEnum>, t: MonitorTypeEnum) -> bool {
    exists|i: int| 0 <= i < sampled.len() && sampled[i] == t
}

/// The kinds the sampler reads on a due tick: the active kinds, in
/// declaration order.
pub open spec fn monitors_to_sample_spec(active: Set<MonitorTypeEnum>) -> Seq<
    MonitorTypeEnum,
> {
    all_monitor_types().filter(|t: MonitorTypeEnum| active.contains(t))
}

/// Lists the kinds to sample this refresh: exactly the active kinds, each
/// once, in declaration order.
pub fn monitors_to_sample(active: &MonitorSet) -> (r: Vec<MonitorTypeEnum>)
    ensures
        r@ == monitors_to_sample_spec(active.view()),
{
    let mut v: Vec<MonitorTypeEnum> = Vec::new();
    if active.contains(MonitorTypeEnum::CpuUsage) {
        v.push(MonitorTypeEnum::CpuUsage);
    }
    if active.contains(MonitorTypeEnum::RamUsage) {
        v.push(MonitorTypeEnum::RamUsage);
    }
    proof {
        reveal_with_fuel(Seq::filter, 4);
        let kinds = all_monitor_types();
        assert(kinds.drop_last() =~= seq![MonitorTypeEnum::CpuUsage]);
        assert(kinds.drop_last().drop_last() =~= Seq::<MonitorTypeEnum>::empty());
        assert(v@ =~= monitors_to_sample_spec(active.view()));
    }
    v
}

/// The plan of one kind's icon: visible exactly while the kind is active,
/// drawn exactly when it is visible and a fresh reading for it exists.
pub open spec fn item_plan_spec(
    active: Set<MonitorTypeEnum>,
    sampled: Seq<MonitorTypeEnum>,
    t: MonitorTypeEnum,
) -> TrayItemPlan {
    TrayItemPlan {
        monitor_type: t,
        visible: active.contains(t),
        draw_icon: active.contains(t) && was_sampled(sampled, t),
    }
}

/// Plans the refresh of every tray icon, one plan per kind in declaration
/// order, from the active set and the kinds that were actually sampled.
pub fn tray_update_plan(active: &MonitorSet, sampled: &Vec<MonitorTypeEnum>) -> (r: Vec<
    TrayItemPlan,
>)
    ensures
        r@.len() == all_monitor_types().len(),
        forall|i: int|
            0 <= i < r@.len() ==> r@[i] == item_plan_spec(
                active.view(),
                sampled@,
                all_monitor_types()[i],
            ),
{
    let kinds = MonitorTypeEnum::all();
    let mut plans: Vec<TrayItemPlan> = Vec::new();
    let n = kinds.len();
    let mut k: usize = 0;
    while k < n
        invariant
            n == kinds@.len(),
            kinds@ == all_monitor_types(),
            0 <= k <= n,
            plans@.len() == k,
            forall|i: int|
                0 <= i < k ==> plans@[i] == item_plan_spec(
                    active.view(),
                    sampled@,
                    kinds@[i],
                ),
        decreases n - k,
    {
        let t = kinds[k];
        let visible = active.contains(t);
        let mut has_reading = false;
        let m = sampled.len();
        let mut j: usize = 0;
        while j < m
            invariant
                m == sampled@.len(),
                0 <= j <= m,
                has_reading == exists|i: int| 0 <= i < j && sampled@[i] == t,
            decreases m - j,
        {
            if sampled[j] == t {
                has_reading = true;
            }
            j += 1;
        }
        proof {
            assert(has_reading == was_sampled(sampled@, t));
        }
        plans.push(TrayItemPlan { monitor_type: t, visible, draw_icon: visible && has_reading });
        k += 1;
    }
    plans
}

/// Active kinds and only active kinds are sampled, each exactly once: the
/// sample plan contains a kind if and only if it is active.
pub proof fn lemma_sample_plan_exact(active: Set<MonitorTypeEnum>, t: MonitorTypeEnum)
    ensures
        was_sampled(monitors_to_sample_spec(active), t) == active.contains(t),
{
    let pred = |k: MonitorTypeEnum| active.contains(k);
    let s = monitors_to_sample_spec(active);
    if was_sampled(s, t) {
        let i = choose|i: int| 0 <= i < s.len() && s[i] == t;
        all_monitor_types().lemma_filter_pred(pred, i);
    }
    if active.contains(t) {
        let i: int = match t {
            MonitorTypeEnum::CpuUsage => 0,
            MonitorTypeEnum::RamUsage => 1,
        };
        assert(all_monitor_types()[i] == t);
        all_monitor_types().lemma_filter_contains(pred, i);
        assert(s.contains(t));
        let j = choose|j: int| 0 <= j < s.len() && s[j] == t;
        assert(was_sampled(s, t));
    }
}

} // verus!
