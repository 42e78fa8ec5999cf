//! Cross-thread intents and the lookup table that turns opaque menu-entry
//! identifiers into them.
//!
//! The worker thread translates every activation of a known menu entry into
//! a `UICommandEnum` and forwards it; identifiers outside the table (such as
//! separators) are ignored. The table is built once when the tray is
//! constructed and is read-only afterwards.

use vstd::prelude::*;

verus! {

/// A high-level intent sent from the worker to the foreground loop.
#[derive(Clone, Copy, Debug, PartialEq, Eq, Structural)]
pub enum UICommandEnum {
    ShowSettings,
    Quit,
}

/// An interactive tray menu entry.
#[derive(Clone, Copy, Debug, PartialEq, Eq, Structural)]
pub enum TrayMenuEventEnum {
    Settings,
    Quit,
}

/// The command each menu entry stands for.
pub open spec fn translate_spec(e: TrayMenuEventEnum) -> UICommandEnum {
    match e {
        TrayMenuEventEnum::Settings => UICommandEnum::ShowSettings,
        TrayMenuEventEnum::Quit => UICommandEnum::Quit,
    }
}

/// Turns a recognised menu entry into the command forwarded to the
/// foreground loop.
pub fn translate_menu_event(e: TrayMenuEventEnum) -> (c: UICommandEnum)
    ensures
        c == translate_spec(e),
{
    match e {
        TrayMenuEventEnum::Settings => UICommandEnum::ShowSettings,
        TrayMenuEventEnum::Quit => UICommandEnum::Quit,
    }
}

/// Identifier-to-entry lookup table. The host assigns each interactive menu
/// entry a small integer key when the tray is built and keeps the mapping
/// from the platform's opaque identifiers to those keys for itself.
#[derive(Clone, Debug)]
pub struct IdSelectorMap {
    entries: Vec<(u64, TrayMenuEventEnum)>,
}

impl IdSelectorMap {
    /// The mapping this table holds.
    pub closed spec fn view(self) -> Map<u64, TrayMenuEventEnum> {
        Map::new(
            |id: u64| exists|i: int| 0 <= i < self.entries@.len() && self.entries@[i].0 == id,
            |id: u64|
                {
                    let i = choose|i: int|
                        0 <= i < self.entries@.len() && self.entries@[i].0 == id;
                    self.entries@[i].1
                },
        )
    }

    /// Whether no two entries share an identifier.
    pub closed spec fn wf(self) -> bool {
        forall|i: int, j: int|
            0 <= i < j < self.entries@.len() ==> (#[trigger] self.entries@[i]).0 != (
            #[trigger] self.entries@[j]).0
    }

    /// An empty table, mapping no identifier.
    pub fn new() -> (m: IdSelectorMap)
        ensures
            m.wf(),
            m.view() == Map::<u64, TrayMenuEventEnum>::empty(),
    {
        let m = IdSelectorMap { entries: Vec::new() };
        proof {
            assert(m.view() =~= Map::<u64, TrayMenuEventEnum>::empty());
        }
        m
    }

    /// Records that the entry behind `id` is `event`. Identifiers are fresh
    /// by construction, so the caller never inserts one twice.
    pub fn insert(&mut self, id: u64, event: TrayMenuEventEnum)
        requires
            old(self).wf(),
            !old(self).view().contains_key(id),
        ensures
            final(self).wf(),
            final(self).view() == old(self).view().insert(id, event),
    {
        self.entries.push((id, event));
        proof {
            let entries = self.entries@;
            let prev = old(self).entries@;
            assert forall|i: int, j: int| 0 <= i < j < entries.len() implies (
            #[trigger] entries[i]).0 != (#[trigger] entries[j]).0 by {
                if j < entries.len() - 1 {
                    assert(prev[i] == entries[i] && prev[j] == entries[j]);
                } else {
                    assert(entries[j].0 == id);
                    if entries[i].0 == id {
                        assert(prev[i].0 == id);
                        assert(old(self).view().contains_key(id));
                    }
                }
            }
            assert forall|k: u64| #[trigger]
                final(self).view().contains_key(k) == old(self).view().insert(
                    id,
                    event,
                ).contains_key(k) by {
                    if k == id {
                        assert(entries[entries.len() - 1].0 == id);
                    } else {
                        if final(self).view().contains_key(k) {
                            let i = choose|i: int|
                                0 <= i < entries.len() && entries[i].0 == k;
                            assert(prev[i] == entries[i]);
                        }
                        if old(self).view().contains_key(k) {
                            let i = choose|i: int| 0 <= i < prev.len() && prev[i].0 == k;
                            assert(entries[i] == prev[i]);
                        }
                    }
                }
            assert forall|k: u64|
                final(self).view().contains_key(k) implies #[trigger] final(self).view()[k]
                == old(self).view().insert(id, event)[k] by {
                let i = choose|i: int| 0 <= i < entries.len() && entries[i].0 == k;
                if k == id {
                    assert(entries[entries.len() - 1].0 == id);
                    if i < entries.len() - 1 {
                        assert(prev[i].0 == id);
                        assert(old(self).view().contains_key(id));
                    }
                    assert(entries[i].1 == event);
                } else {
                    assert(i < entries.len() - 1);
                    assert(prev[i] == entries[i]);
                    let j = choose|j: int| 0 <= j < prev.len() && prev[j].0 == k;
                    assert(prev[j] == entries[j]);
                    assert(old(self).view()[k] == prev[j].1);
                    assert(j == i || prev[j].0 == prev[i].0);
                }
            }
            assert(final(self).view() =~= old(self).view().insert(id, event));
        }
    }

    /// Looks an identifier up: the entry it was recorded for, or nothing for
    /// an identifier outside the table.
    pub fn lookup(&self, id: u64) -> (r: Option<TrayMenuEventEnum>)
        requires
            self.wf(),
        ensures
            match r {
                Some(e) => self.view().contains_key(id) && self.view()[id] == e,
                None => !self.view().contains_key(id),
            },
    {
        let n = self.entries.len();
        let mut k: usize = 0;
        while k < n
            invariant
                n == self.entries@.len(),
                0 <= k <= n,
                self.wf(),
                forall|i: int| 0 <= i < k ==> (#[trigger] self.entries@[i]).0 != id,
            decreases n - k,
        {
            let (entry_id, event) = self.entries[k];
            if entry_id == id {
                return Some(event);
            }
            k += 1;
        }
        proof {
            if self.view().contains_key(id) {
                let i = choose|i: int|
                    0 <= i < self.entries@.len() && self.entries@[i].0 == id;
            }
        }
        None
    }
}

/// Builds the table for the two interactive entries of the tray menu: the
/// settings entry and the quit entry. The mapping is exhaustive over the
/// interactive entries; separators get no identifier here and are therefore
/// ignored by lookup.
pub fn build_id_selector(settings_id: u64, quit_id: u64) -> (m: IdSelectorMap)
    requires
        settings_id != quit_id,
    ensures
        m.wf(),
        m.view() == Map::<u64, TrayMenuEventEnum>::empty().insert(
            settings_id,
            TrayMenuEventEnum::Settings,
        ).insert(quit_id, TrayMenuEventEnum::Quit),
{
    let mut m = IdSelectorMap::new();
    m.insert(settings_id, TrayMenuEventEnum::Settings);
    m.insert(quit_id, TrayMenuEventEnum::Quit);
    m
}

} // verus!
