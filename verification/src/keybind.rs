//! The keybinding table: an ordered collection of trigger-key/action
//! entries, immutable once configuration loading has built it. Lookup is
//! by exact trigger match, first match wins.
use vstd::prelude::*;

use crate::keys::Code;
use crate::style::StyleComponent;
use crate::style::StyleComponentView;
use crate::style::comps_view;

verus! {

/// What pressing a bound trigger key should do.
pub enum Action {
    /// Reinterpret the press as the given key.
    Rebind { rebind_to: Code },
    /// Assemble a composite style value from the given components.
    Style { style: Vec<StyleComponent> },
}

/// The mathematical shadow of an `Action`.
pub enum ActionView {
    Rebind { rebind_to: Code },
    Style { style: Seq<StyleComponentView> },
}

impl View for Action {
    type V = ActionView;

    open spec fn view(&self) -> ActionView {
        match self {
            Action::Rebind { rebind_to } => ActionView::Rebind { rebind_to: *rebind_to },
            Action::Style { style } => ActionView::Style { style: comps_view(style@) },
        }
    }
}

/// One entry of the keybinding table.
pub struct Keybind {
    pub key: Code,
    pub action: Action,
}

/// The mathematical shadow of a `Keybind`.
pub struct KeybindView {
    pub key: Code,
    pub action: ActionView,
}

impl View for Keybind {
    type V = KeybindView;

    open spec fn view(&self) -> KeybindView {
        KeybindView { key: self.key, action: self.action@ }
    }
}

/// The keybinding table, in configuration order.
pub struct Keybinds {
    binds: Vec<Keybind>,
}

impl View for Keybinds {
    type V = Seq<KeybindView>;

    closed spec fn view(&self) -> Seq<KeybindView> {
        self.binds@.map_values(|b: Keybind| b@)
    }
}

/// The first entry whose trigger is `key`, if any.
pub open spec fn find_bind(bs: Seq<KeybindView>, key: Code) -> Option<KeybindView>
    decreases bs.len(),
{
    if bs.len() == 0 {
        None
    } else if bs[0].key == key {
        Some(bs[0])
    } else {
        find_bind(bs.subrange(1, bs.len() as int), key)
    }
}

proof fn lemma_find_bind_at(bs: Seq<KeybindView>, key: Code, i: int)
    requires
        0 <= i < bs.len(),
        bs[i].key == key,
        forall|j: int| 0 <= j < i ==> bs[j].key != key,
    ensures
        find_bind(bs, key) == Some(bs[i]),
    decreases i,
{
    if i > 0 {
        lemma_find_bind_at(bs.subrange(1, bs.len() as int), key, i - 1);
    }
}

proof fn lemma_find_bind_none(bs: Seq<KeybindView>, key: Code)
    requires
        forall|j: int| 0 <= j < bs.len() ==> bs[j].key != key,
    ensures
        find_bind(bs, key) is None,
    decreases bs.len(),
{
    if bs.len() > 0 {
        lemma_find_bind_none(bs.subrange(1, bs.len() as int), key);
    }
}

impl Keybinds {
    /// An empty table.
    pub fn new() -> (r: Self)
        ensures
            r@ =~= Seq::<KeybindView>::empty(),
    {
        Keybinds { binds: Vec::new() }
    }

    /// Appends one entry; later entries lose to earlier ones on lookup.
    pub fn push(&mut self, b: Keybind)
        ensures
            final(self)@ =~= old(self)@.push(b@),
    {
        self.binds.push(b);
    }

    /// The number of entries.
    pub fn len(&self) -> (n: usize)
        ensures
            n == self@.len(),
    {
        self.binds.len()
    }

    /// Looks the key up in the table: the first entry bound to it wins.
    pub fn get_bind_for(&self, key: Code) -> (r: Option<&Keybind>)
        ensures
            match r {
                Some(b) => find_bind(self@, key) == Some(b@),
                None => find_bind(self@, key) is None,
            },
    {
        let n = self.binds.len();
        let mut i: usize = 0;
        while i < n
            invariant
                i <= n,
                n == self@.len(),
                forall|j: int| 0 <= j < i ==> self@[j].key != key,
            decreases n - i,
        {
            if self.binds[i].key == key {
                proof {
                    assert(self@[i as int] == self.binds@[i as int]@);
                    lemma_find_bind_at(self@, key, i as int);
                }
                return Some(&self.binds[i]);
            }
            proof {
                assert(self@[i as int] == self.binds@[i as int]@);
            }
            i = i + 1;
        }
        proof {
            lemma_find_bind_none(self@, key);
        }
        None
    }
}

} // verus!
