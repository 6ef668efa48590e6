//! The menu model: entries with a stable identity, a kind, and a mutable
//! display label.  Identities are opaque tokens, compared only for equality,
//! assigned once and never reused; the label is the one mutable part.

use vstd::prelude::*;
use vstd::pervasive::VecAdditionalExecFns;

verus! {

/// Which action a menu entry stands for.  Separators are never selectable
/// and produce no events; they are carried only so a whole menu can be
/// modelled.
#[derive(Clone, Copy, PartialEq, Eq, Structural, Debug)]
pub enum MenuKind {
    Lock,
    Suspend,
    ToggleService,
    Quit,
    Separator,
}

/// One menu entry: identity and kind are fixed at creation, the label may
/// be rewritten in place.
pub struct MenuEntry {
    pub id: u64,
    pub kind: MenuKind,
    pub label: String,
}

/// Mathematical model of a menu entry.
pub struct EntryModel {
    pub id: u64,
    pub kind: MenuKind,
    pub label: Seq<char>,
}

impl View for MenuEntry {
    type V = EntryModel;

    open spec fn view(&self) -> EntryModel {
        EntryModel { id: self.id, kind: self.kind, label: self.label@ }
    }
}

/// All entry identities are distinct.
pub open spec fn menu_wf(m: Seq<EntryModel>) -> bool {
    forall|i: int, j: int| 0 <= i < j < m.len() ==> m[i].id != m[j].id
}

/// Some entry carries the given identity.
pub open spec fn has_entry(m: Seq<EntryModel>, id: u64) -> bool {
    exists|i: int| 0 <= i < m.len() && m[i].id == id
}

/// The label of the entry with the given identity (well defined when the
/// identity is present and identities are distinct).
pub open spec fn label_of(m: Seq<EntryModel>, id: u64) -> Seq<char>
    recommends
        has_entry(m, id),
{
    let i = choose|i: int| 0 <= i < m.len() && m[i].id == id;
    m[i].label
}

/// The menu after rewriting the label of the entry with the given identity;
/// identities and kinds are untouched, entries with other identities are
/// untouched.
pub open spec fn set_label_spec(m: Seq<EntryModel>, id: u64, text: Seq<char>) -> Seq<EntryModel> {
    m.map(|i: int, e: EntryModel|
        if e.id == id {
            EntryModel { id: e.id, kind: e.kind, label: text }
        } else {
            e
        })
}

/// Rewriting a label never changes which identities are present.
pub proof fn lemma_set_label_preserves_ids(m: Seq<EntryModel>, id: u64, text: Seq<char>)
    ensures
        set_label_spec(m, id, text).len() == m.len(),
        forall|i: int| 0 <= i < m.len() ==> #[trigger] set_label_spec(m, id, text)[i].id == m[i].id,
        forall|i: int| 0 <= i < m.len() ==> #[trigger] set_label_spec(m, id, text)[i].kind == m[i].kind,
        menu_wf(m) ==> menu_wf(set_label_spec(m, id, text)),
        forall|q: u64| has_entry(m, q) <==> #[trigger] has_entry(set_label_spec(m, id, text), q),
{
    assert forall|q: u64| has_entry(m, q) <==> #[trigger] has_entry(set_label_spec(m, id, text), q) by {
        if has_entry(m, q) {
            let i = choose|i: int| 0 <= i < m.len() && m[i].id == q;
            assert(set_label_spec(m, id, text)[i].id == q);
        }
        if has_entry(set_label_spec(m, id, text), q) {
            let i = choose|i: int| 0 <= i < set_label_spec(m, id, text).len()
                && set_label_spec(m, id, text)[i].id == q;
            assert(m[i].id == q);
        }
    }
}

/// After a rewrite, the addressed entry carries exactly the new text, and
/// every other entry is unchanged.
pub proof fn lemma_label_of_after_set(m: Seq<EntryModel>, id: u64, text: Seq<char>)
    requires
        menu_wf(m),
        has_entry(m, id),
    ensures
        label_of(set_label_spec(m, id, text), id) == text,
        forall|q: u64| q != id && has_entry(m, q)
            ==> #[trigger] label_of(set_label_spec(m, id, text), q) == label_of(m, q),
{
    lemma_set_label_preserves_ids(m, id, text);
    let s = set_label_spec(m, id, text);
    assert(has_entry(s, id));
    let i = choose|i: int| 0 <= i < s.len() && s[i].id == id;
    assert(s[i].id == id);
    assert(m[i].id == id);
    assert(s[i].label == text);
    assert forall|q: u64| q != id && has_entry(m, q)
        implies #[trigger] label_of(s, q) == label_of(m, q) by {
        assert(has_entry(s, q));
        let j = choose|j: int| 0 <= j < s.len() && s[j].id == q;
        assert(s[j].id == q);
        let k = choose|k: int| 0 <= k < m.len() && m[k].id == q;
        assert(m[j].id == q);
        assert(j == k);
        assert(s[j].label == m[k].label);
    }
}

/// Law: rewriting a label twice with the same text leaves the menu exactly
/// as one rewrite leaves it.
pub proof fn lemma_set_label_idempotent(m: Seq<EntryModel>, id: u64, text: Seq<char>)
    ensures
        set_label_spec(set_label_spec(m, id, text), id, text) == set_label_spec(m, id, text),
{
    let once = set_label_spec(m, id, text);
    let twice = set_label_spec(once, id, text);
    assert forall|i: int| 0 <= i < twice.len() implies twice[i] == once[i] by {
        assert(once[i] == if m[i].id == id {
            EntryModel { id: m[i].id, kind: m[i].kind, label: text }
        } else {
            m[i]
        });
    }
    assert(twice =~= once);
}

/// The menu: a table of entries keyed by identity.
pub struct MenuModel {
    pub entries: Vec<MenuEntry>,
}

impl View for MenuModel {
    type V = Seq<EntryModel>;

    open spec fn view(&self) -> Seq<EntryModel> {
        self.entries@.map(|i: int, e: MenuEntry| e@)
    }
}

impl MenuModel {
    /// Identities within the menu are distinct.
    pub open spec fn wf(&self) -> bool {
        menu_wf(self@)
    }

    /// An empty menu.
    pub fn new() -> (m: MenuModel)
        ensures
            m@ == Seq::<EntryModel>::empty(),
            m.wf(),
    {
        let m = MenuModel { entries: Vec::new() };
        proof {
            assert(m@ =~= Seq::<EntryModel>::empty());
        }
        m
    }

    /// Appends an entry under a fresh identity.
    pub fn add_entry(&mut self, id: u64, kind: MenuKind, label: String)
        requires
            !has_entry(old(self)@, id),
        ensures
            final(self)@ == old(self)@.push(EntryModel { id, kind, label: label@ }),
            old(self).wf() ==> final(self).wf(),
            has_entry(final(self)@, id),
            forall|q: u64| has_entry(old(self)@, q) ==> #[trigger] has_entry(final(self)@, q),
    {
        let ghost pushed = EntryModel { id, kind, label: label@ };
        self.entries.push(MenuEntry { id, kind, label });
        proof {
            assert(self@ =~= old(self)@.push(pushed));
            let n = old(self)@.len() as int;
            assert(self@[n].id == id);
            assert forall|q: u64| has_entry(old(self)@, q)
                implies #[trigger] has_entry(self@, q) by {
                let i = choose|i: int| 0 <= i < old(self)@.len() && old(self)@[i].id == q;
                assert(self@[i].id == q);
            }
            if old(self).wf() {
                assert forall|i: int, j: int| 0 <= i < j < self@.len()
                    implies self@[i].id != self@[j].id by {
                    if j < n {
                        assert(old(self)@[i].id != old(self)@[j].id);
                    } else {
                        assert(self@[i] == old(self)@[i]);
                        assert(!(old(self)@[i].id == id));
                    }
                }
            }
        }
    }

    /// Rewrites the label of the entry with the given identity, in place;
    /// identity and kind are untouched, and an absent identity makes it a
    /// no-op.
    pub fn set_label(&mut self, id: u64, text: &str)
        ensures
            final(self)@ == set_label_spec(old(self)@, id, text@),
            old(self).wf() ==> final(self).wf(),
    {
        let ghost target = set_label_spec(old(self)@, id, text@);
        let n = self.entries.len();
        let mut i: usize = 0;
        while i < n
            invariant
                n == self.entries.len(),
                0 <= i <= n,
                self@.len() == old(self)@.len() == n,
                target == set_label_spec(old(self)@, id, text@),
                forall|j: int| 0 <= j < i ==> self@[j] == target[j],
                forall|j: int| i <= j < n ==> self@[j] == old(self)@[j],
            decreases n - i,
        {
            if self.entries[i].id == id {
                let kind = self.entries[i].kind;
                self.entries.set(i, MenuEntry { id, kind, label: text.to_owned() });
            }
            proof {
                assert(self@[i as int] == target[i as int]);
            }
            i = i + 1;
        }
        proof {
            assert(self@ =~= target);
            lemma_set_label_preserves_ids(old(self)@, id, text@);
        }
    }

    /// The current label of the entry with the given identity, if any.
    pub fn label_text(&self, id: u64) -> (r: Option<String>)
        requires
            self.wf(),
        ensures
            match r {
                Some(s) => has_entry(self@, id) && s@ == label_of(self@, id),
                None => !has_entry(self@, id),
            },
    {
        let n = self.entries.len();
        let mut i: usize = 0;
        while i < n
            invariant
                n == self.entries.len(),
                0 <= i <= n,
                self.wf(),
                forall|j: int| 0 <= j < i ==> self@[j].id != id,
            decreases n - i,
        {
            if self.entries[i].id == id {
                let s = self.entries[i].label.clone();
                proof {
                    assert(self@[i as int].id == id);
                    let k = choose|k: int| 0 <= k < self@.len() && self@[k].id == id;
                    assert(k == i as int);
                }
                return Some(s);
            }
            i = i + 1;
        }
        None
    }

    /// How many entries the menu holds.
    pub fn entry_count(&self) -> (n: usize)
        ensures
            n == self@.len(),
    {
        self.entries.len()
    }
}

} // verus!
