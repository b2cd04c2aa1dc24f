//! The modifier+key dispatch table.
//!
//! A table maps (modifier set, key symbol) pairs to actions. Matching is
//! exact: a binding on Alt alone never fires while Alt+Shift is held, and
//! vice versa. Registering the same pair again overwrites: the
//! most-recently-registered action wins. Dispatching an unregistered pair
//! resolves to nothing, so the event passes through to the host's default
//! behaviour.

use vstd::prelude::*;

verus! {

use crate::actions::{Action, ActionModel};

/// One registered binding.
pub struct Binding {
    pub mods: u32,
    pub key: u32,
    pub action: Action,
}

/// The mathematical content of a registration sequence: later entries
/// shadow earlier ones with the same (modifiers, key) pair.
pub open spec fn table_model(s: Seq<Binding>) -> Map<(u32, u32), ActionModel>
    decreases s.len(),
{
    if s.len() == 0 {
        Map::empty()
    } else {
        table_model(s.drop_last()).insert((s.last().mods, s.last().key), s.last().action@)
    }
}

/// The dispatch table. Its model is the map from exact (modifiers, key)
/// pairs to the most-recently-registered action.
pub struct BindingTable {
    entries: Vec<Binding>,
}

impl View for BindingTable {
    type V = Map<(u32, u32), ActionModel>;

    closed spec fn view(&self) -> Map<(u32, u32), ActionModel> {
        table_model(self.entries@)
    }
}

impl BindingTable {
    /// The registrations in order; the table's map is their `table_model`.
    pub closed spec fn regs(&self) -> Seq<Binding> {
        self.entries@
    }

    /// The table's map is always the model of its registration sequence.
    pub proof fn lemma_model(&self)
        ensures
            self@ == table_model(self.regs()),
    {
    }

    /// An empty table: nothing is bound.
    pub fn new() -> (t: Self)
        ensures
            t@ == Map::<(u32, u32), ActionModel>::empty(),
            t.regs().len() == 0,
    {
        BindingTable { entries: Vec::new() }
    }

    /// How many registrations the table holds (re-registrations included).
    pub fn len(&self) -> (n: usize)
        ensures
            n == self.regs().len(),
    {
        self.entries.len()
    }

    /// The `i`-th registration, in registration order.
    pub fn entry_at(&self, i: usize) -> (b: &Binding)
        requires
            i < self.regs().len(),
        ensures
            *b == self.regs()[i as int],
    {
        &self.entries[i]
    }

    /// Register `action` under the exact pair (`mods`, `key`). An existing
    /// binding on the same pair is shadowed: last-registered wins.
    pub fn bind(&mut self, mods: u32, key: u32, action: Action)
        ensures
            final(self)@ == old(self)@.insert((mods, key), action@),
            final(self).regs() == old(self).regs().push(Binding { mods, key, action }),
    {
        let ghost prev = self.entries@;
        self.entries.push(Binding { mods, key, action });
        proof {
            assert(self.entries@.drop_last() =~= prev);
        }
    }

    /// Resolve an exact (modifiers, key) pair to the most-recently-registered
    /// action, or to nothing when the pair was never registered.
    pub fn dispatch(&self, mods: u32, key: u32) -> (r: Option<&Action>)
        ensures
            match r {
                Some(a) => self@.contains_key((mods, key)) && a@ == self@[(mods, key)],
                None => !self@.contains_key((mods, key)),
            },
    {
        let mut i: usize = self.entries.len();
        while i > 0
            invariant
                i <= self.entries@.len(),
                forall|j: int|
                    i <= j < self.entries@.len() ==> !(self.entries@[j].mods == mods
                        && self.entries@[j].key == key),
            decreases i,
        {
            i = i - 1;
            let b = &self.entries[i];
            if b.mods == mods && b.key == key {
                proof {
                    lemma_table_model_last_match(self.entries@, mods, key, i as int);
                }
                return Some(&self.entries[i].action);
            }
        }
        proof {
            lemma_table_model_absent(self.entries@, mods, key);
        }
        None
    }

    /// Register a whole key row as virtual-terminal switches: the `i`-th
    /// symbol (0-indexed) switches to virtual terminal `i + 1`.
    pub fn bind_vt_row(&mut self, mods: u32, syms: &Vec<u32>)
        requires
            syms@.len() <= 0xffff_ffff,
        ensures
            final(self)@ == vt_row_model(old(self)@, mods, syms@),
    {
        let n = syms.len();
        let mut idx: usize = 0;
        while idx < n
            invariant
                n == syms@.len(),
                n <= 0xffff_ffff,
                idx <= n,
                self@ == vt_row_model(old(self)@, mods, syms@.take(idx as int)),
            decreases n - idx,
        {
            self.bind(mods, syms[idx], Action::SwitchToVt(idx as u32 + 1));
            proof {
                assert(syms@.take(idx + 1).drop_last() =~= syms@.take(idx as int));
                assert(syms@.take(idx + 1).last() == syms@[idx as int]);
            }
            idx = idx + 1;
        }
        proof {
            assert(syms@.take(n as int) =~= syms@);
        }
    }

    /// Register a whole key row as workspace switches: the `i`-th symbol
    /// shows workspace `i + 1` under `show_mods` and sends the focused
    /// window there under `set_mods`.
    pub fn bind_workspace_row(&mut self, show_mods: u32, set_mods: u32, syms: &Vec<u32>)
        requires
            syms@.len() <= 0xffff_ffff,
        ensures
            final(self)@ == workspace_row_model(old(self)@, show_mods, set_mods, syms@),
    {
        let n = syms.len();
        let mut idx: usize = 0;
        while idx < n
            invariant
                n == syms@.len(),
                n <= 0xffff_ffff,
                idx <= n,
                self@ == workspace_row_model(old(self)@, show_mods, set_mods, syms@.take(idx as int)),
            decreases n - idx,
        {
            self.bind(show_mods, syms[idx], Action::ShowWorkspace(idx as u32 + 1));
            self.bind(set_mods, syms[idx], Action::SetWorkspace(idx as u32 + 1));
            proof {
                assert(syms@.take(idx + 1).drop_last() =~= syms@.take(idx as int));
                assert(syms@.take(idx + 1).last() == syms@[idx as int]);
            }
            idx = idx + 1;
        }
        proof {
            assert(syms@.take(n as int) =~= syms@);
        }
    }
}

/// The model of [`BindingTable::bind_vt_row`]: symbol `i` maps to virtual
/// terminal `i + 1`.
pub open spec fn vt_row_model(
    m: Map<(u32, u32), ActionModel>,
    mods: u32,
    syms: Seq<u32>,
) -> Map<(u32, u32), ActionModel>
    decreases syms.len(),
{
    if syms.len() == 0 {
        m
    } else {
        vt_row_model(m, mods, syms.drop_last()).insert(
            (mods, syms.last()),
            ActionModel::SwitchToVt(syms.len() as u32),
        )
    }
}

/// The model of [`BindingTable::bind_workspace_row`]: symbol `i` shows
/// workspace `i + 1` under `show_mods` and assigns to it under `set_mods`.
pub open spec fn workspace_row_model(
    m: Map<(u32, u32), ActionModel>,
    show_mods: u32,
    set_mods: u32,
    syms: Seq<u32>,
) -> Map<(u32, u32), ActionModel>
    decreases syms.len(),
{
    if syms.len() == 0 {
        m
    } else {
        workspace_row_model(m, show_mods, set_mods, syms.drop_last()).insert(
            (show_mods, syms.last()),
            ActionModel::ShowWorkspace(syms.len() as u32),
        ).insert((set_mods, syms.last()), ActionModel::SetWorkspace(syms.len() as u32))
    }
}

/// Law: dispatching a pair that no registration carries resolves to nothing.
pub proof fn lemma_table_model_absent(s: Seq<Binding>, mods: u32, key: u32)
    requires
        forall|j: int| 0 <= j < s.len() ==> !(s[j].mods == mods && s[j].key == key),
    ensures
        !table_model(s).contains_key((mods, key)),
    decreases s.len(),
{
    if s.len() > 0 {
        assert(forall|j: int|
            0 <= j < s.drop_last().len() ==> !(s.drop_last()[j].mods == mods
                && s.drop_last()[j].key == key));
        lemma_table_model_absent(s.drop_last(), mods, key);
        assert(!(s.last().mods == mods && s.last().key == key));
    }
}

/// Law: the registration with no later registration on its pair is the one
/// the table resolves that pair to.
pub proof fn lemma_table_model_last_match(s: Seq<Binding>, mods: u32, key: u32, i: int)
    requires
        0 <= i < s.len(),
        s[i].mods == mods,
        s[i].key == key,
        forall|j: int| i < j < s.len() ==> !(s[j].mods == mods && s[j].key == key),
    ensures
        table_model(s).contains_key((mods, key)),
        table_model(s)[(mods, key)] == s[i].action@,
    decreases s.len(),
{
    if i == s.len() - 1 {
    } else {
        assert(forall|j: int|
            i < j < s.drop_last().len() ==> !(s.drop_last()[j].mods == mods
                && s.drop_last()[j].key == key));
        lemma_table_model_last_match(s.drop_last(), mods, key, i);
        assert(!(s.last().mods == mods && s.last().key == key));
    }
}

/// Law: after registering a pair, that exact pair resolves to the registered
/// action, and every other pair resolves exactly as before — no other
/// binding is disturbed and no other action fires for the registered pair.
pub proof fn lemma_bind_dispatch_exact(
    m: Map<(u32, u32), ActionModel>,
    mods: u32,
    key: u32,
    a: ActionModel,
)
    ensures
        m.insert((mods, key), a).contains_key((mods, key)),
        m.insert((mods, key), a)[(mods, key)] == a,
        forall|om: u32, ok: u32|
            (om, ok) != (mods, key) ==> m.insert((mods, key), a).contains_key((om, ok))
                == m.contains_key((om, ok)),
        forall|om: u32, ok: u32|
            (om, ok) != (mods, key) && m.contains_key((om, ok)) ==> m.insert(
                (mods, key),
                a,
            )[(om, ok)] == m[(om, ok)],
{
}

/// Law: re-registering the same pair overwrites — only the newest action
/// resolves, and every other pair is untouched by both registrations.
pub proof fn lemma_rebind_last_wins(
    m: Map<(u32, u32), ActionModel>,
    mods: u32,
    key: u32,
    first: ActionModel,
    second: ActionModel,
)
    ensures
        m.insert((mods, key), first).insert((mods, key), second)[(mods, key)] == second,
        m.insert((mods, key), first).insert((mods, key), second) == m.insert((mods, key), second),
{
    assert(m.insert((mods, key), first).insert((mods, key), second) =~= m.insert(
        (mods, key),
        second,
    ));
}

/// Law: the `i`-th symbol of a duplicate-free row switches to virtual
/// terminal `i + 1` — every row entry lands on its own target.
pub proof fn lemma_vt_row_targets(m: Map<(u32, u32), ActionModel>, mods: u32, syms: Seq<u32>)
    requires
        syms.len() <= 0xffff_ffff,
        forall|i: int, j: int| 0 <= i < j < syms.len() ==> syms[i] != syms[j],
    ensures
        forall|i: int|
            0 <= i < syms.len() ==> vt_row_model(m, mods, syms).contains_key((mods, syms[i]))
                && vt_row_model(m, mods, syms)[(mods, syms[i])] == ActionModel::SwitchToVt(
                (i + 1) as u32,
            ),
    decreases syms.len(),
{
    if syms.len() > 0 {
        let prev = syms.drop_last();
        assert(forall|i: int, j: int| 0 <= i < j < prev.len() ==> prev[i] != prev[j]);
        lemma_vt_row_targets(m, mods, prev);
        assert forall|i: int|
            0 <= i < syms.len() implies vt_row_model(m, mods, syms).contains_key((mods, syms[i]))
            && vt_row_model(m, mods, syms)[(mods, syms[i])] == ActionModel::SwitchToVt(
            (i + 1) as u32,
        ) by {
            if i < syms.len() - 1 {
                assert(prev[i] == syms[i]);
                assert(syms[i] != syms[syms.len() - 1]);
            }
        }
    }
}

/// A virtual-terminal row touches only its own pairs: any other pair
/// resolves exactly as before the row was registered.
pub proof fn lemma_vt_row_preserves(
    m: Map<(u32, u32), ActionModel>,
    mods: u32,
    syms: Seq<u32>,
    k: (u32, u32),
)
    requires
        forall|i: int| 0 <= i < syms.len() ==> k != (mods, #[trigger] syms[i]),
    ensures
        vt_row_model(m, mods, syms).contains_key(k) == m.contains_key(k),
        m.contains_key(k) ==> vt_row_model(m, mods, syms)[k] == m[k],
    decreases syms.len(),
{
    if syms.len() > 0 {
        lemma_vt_row_preserves(m, mods, syms.drop_last(), k);
        assert(k != (mods, syms[syms.len() - 1]));
    }
}

/// A workspace row touches only its own pairs: any other pair resolves
/// exactly as before the row was registered.
pub proof fn lemma_workspace_row_preserves(
    m: Map<(u32, u32), ActionModel>,
    show_mods: u32,
    set_mods: u32,
    syms: Seq<u32>,
    k: (u32, u32),
)
    requires
        forall|i: int|
            0 <= i < syms.len() ==> k != (show_mods, #[trigger] syms[i]) && k != (
                set_mods,
                syms[i],
            ),
    ensures
        workspace_row_model(m, show_mods, set_mods, syms).contains_key(k) == m.contains_key(k),
        m.contains_key(k) ==> workspace_row_model(m, show_mods, set_mods, syms)[k] == m[k],
    decreases syms.len(),
{
    if syms.len() > 0 {
        lemma_workspace_row_preserves(m, show_mods, set_mods, syms.drop_last(), k);
        assert(k != (show_mods, syms[syms.len() - 1]));
        assert(k != (set_mods, syms[syms.len() - 1]));
    }
}

/// Law: in a duplicate-free workspace row registered under two distinct
/// modifier sets, the `i`-th symbol shows workspace `i + 1` under the show
/// modifiers and assigns to workspace `i + 1` under the set modifiers —
/// the two families never collide and no entry aliases another.
pub proof fn lemma_workspace_row_targets(
    m: Map<(u32, u32), ActionModel>,
    show_mods: u32,
    set_mods: u32,
    syms: Seq<u32>,
)
    requires
        syms.len() <= 0xffff_ffff,
        show_mods != set_mods,
        forall|i: int, j: int| 0 <= i < j < syms.len() ==> syms[i] != syms[j],
    ensures
        forall|i: int|
            0 <= i < syms.len() ==> workspace_row_model(m, show_mods, set_mods, syms).contains_key(
                (show_mods, #[trigger] syms[i]),
            ) && workspace_row_model(m, show_mods, set_mods, syms)[(show_mods, syms[i])]
                == ActionModel::ShowWorkspace((i + 1) as u32) && workspace_row_model(
                m,
                show_mods,
                set_mods,
                syms,
            ).contains_key((set_mods, syms[i])) && workspace_row_model(
                m,
                show_mods,
                set_mods,
                syms,
            )[(set_mods, syms[i])] == ActionModel::SetWorkspace((i + 1) as u32),
    decreases syms.len(),
{
    if syms.len() > 0 {
        let prev = syms.drop_last();
        assert(forall|i: int, j: int| 0 <= i < j < prev.len() ==> prev[i] != prev[j]);
        lemma_workspace_row_targets(m, show_mods, set_mods, prev);
        let t = workspace_row_model(m, show_mods, set_mods, syms);
        assert forall|i: int|
            0 <= i < syms.len() implies t.contains_key((show_mods, syms[i])) && t[(
            show_mods,
            syms[i],
        )] == ActionModel::ShowWorkspace((i + 1) as u32) && t.contains_key((set_mods, syms[i]))
            && t[(set_mods, syms[i])] == ActionModel::SetWorkspace((i + 1) as u32) by {
            if i < syms.len() - 1 {
                assert(prev[i] == syms[i]);
                assert(syms[i] != syms[syms.len() - 1]);
            }
        }
    }
}

} // verus!
