use std::sync::Arc;
use vstd::hash_map::StringHashMap;
use vstd::prelude::*;

use crate::util::{template_for, KLineItemUtil};

verus! {

/// What a registry holds: the table template of the default database, if one
/// was chosen, and the table template registered under each key.
pub struct UtilsView {
    pub default: Option<Seq<char>>,
    pub utils: Map<Seq<char>, Seq<char>>,
}

/// The registry after the database `db` was registered under its own name,
/// and made the default when `is_default` holds.
pub open spec fn init_spec(v: UtilsView, db: Seq<char>, is_default: bool) -> UtilsView {
    UtilsView {
        default: if is_default {
            Some(template_for(db))
        } else {
            v.default
        },
        utils: v.utils.insert(db, template_for(db)),
    }
}

/// Law: once database `db` is registered, its tables are registered under
/// `db`; every other key keeps what it had; the default becomes `db`'s tables
/// when `is_default` holds and stays as it was otherwise.
pub proof fn law_registry_after_init(v: UtilsView, db: Seq<char>, is_default: bool, other: Seq<char>)
    requires
        other != db,
    ensures
        init_spec(v, db, is_default).utils.contains_key(db),
        init_spec(v, db, is_default).utils[db] == template_for(db),
        init_spec(v, db, is_default).utils.contains_key(other) == v.utils.contains_key(other),
        v.utils.contains_key(other) ==> init_spec(v, db, is_default).utils[other] == v.utils[other],
        is_default ==> init_spec(v, db, is_default).default == Some(template_for(db)),
        !is_default ==> init_spec(v, db, is_default).default == v.default,
{
}

/// The registry after the registrations `regs`, in order, starting from an
/// empty one; each registration is a database name and whether it becomes
/// the default.
pub open spec fn registry_after(regs: Seq<(Seq<char>, bool)>) -> UtilsView
    decreases regs.len(),
{
    if regs.len() == 0 {
        UtilsView { default: None, utils: Map::empty() }
    } else {
        init_spec(registry_after(regs.drop_last()), regs.last().0, regs.last().1)
    }
}

/// The database of the last registration in `regs` that made it the default.
pub open spec fn last_default(regs: Seq<(Seq<char>, bool)>) -> Option<Seq<char>>
    decreases regs.len(),
{
    if regs.len() == 0 {
        None
    } else if regs.last().1 {
        Some(regs.last().0)
    } else {
        last_default(regs.drop_last())
    }
}

/// One more registration extends the sequence of registrations.
pub proof fn lemma_registry_step(regs: Seq<(Seq<char>, bool)>, db: Seq<char>, is_default: bool)
    ensures
        registry_after(regs.push((db, is_default))) == init_spec(registry_after(regs), db, is_default),
{
    assert(regs.push((db, is_default)).drop_last() =~= regs);
}

/// Law: after any sequence of registrations from an empty registry, the
/// default is the tables of the last database registered as the default, or
/// none when no registration asked for it; the keys are exactly the
/// registered databases; and each key holds the tables of the database of
/// that name.
pub proof fn law_registry_after_registrations(regs: Seq<(Seq<char>, bool)>)
    ensures
        registry_after(regs).default == (match last_default(regs) {
            Some(db) => Some(template_for(db)),
            None => None,
        }),
        forall|k: Seq<char>|
            registry_after(regs).utils.contains_key(k) <==> (exists|i: int|
                0 <= i < regs.len() && (#[trigger] regs[i]).0 == k),
        forall|k: Seq<char>|
            #[trigger] registry_after(regs).utils.contains_key(k) ==> registry_after(regs).utils[k]
                == template_for(k),
    decreases regs.len(),
{
    if regs.len() > 0 {
        let prev = regs.drop_last();
        let (db, d) = regs.last();
        law_registry_after_registrations(prev);
        assert forall|k: Seq<char>|
            registry_after(regs).utils.contains_key(k) <==> (exists|i: int|
                0 <= i < regs.len() && (#[trigger] regs[i]).0 == k) by {
            if registry_after(regs).utils.contains_key(k) {
                if k == db {
                    assert(regs[regs.len() - 1].0 == k);
                } else {
                    let i = choose|i: int| 0 <= i < prev.len() && (#[trigger] prev[i]).0 == k;
                    assert(regs[i] == prev[i]);
                }
            }
            if exists|i: int| 0 <= i < regs.len() && (#[trigger] regs[i]).0 == k {
                let i = choose|i: int| 0 <= i < regs.len() && (#[trigger] regs[i]).0 == k;
                if i < regs.len() - 1 {
                    assert(prev[i] == regs[i]);
                }
            }
        }
    }
}

/// `Arc::clone`: another handle to the same shared value.
#[verifier::external_body]
fn share<T>(a: &Arc<T>) -> (b: Arc<T>)
    ensures
        b == *a,
{
    Arc::clone(a)
}

/// The table namers of the databases in use, shared between their users,
/// with one of them chosen as the default.
pub struct KLineItemUtils {
    default: Option<Arc<KLineItemUtil>>,
    util_hmap: StringHashMap<Arc<KLineItemUtil>>,
}

impl View for KLineItemUtils {
    type V = UtilsView;

    closed spec fn view(&self) -> UtilsView {
        UtilsView {
            default: match self.default {
                Some(u) => Some(u@),
                None => None,
            },
            utils: self.util_hmap@.map_values(|u: Arc<KLineItemUtil>| u@),
        }
    }
}

impl KLineItemUtils {
    /// No database registered and no default.
    pub fn new() -> (r: KLineItemUtils)
        ensures
            r@ == (UtilsView { default: None, utils: Map::empty() }),
    {
        let r = KLineItemUtils { default: None, util_hmap: StringHashMap::new() };
        assert(r@.utils =~= Map::<Seq<char>, Seq<char>>::empty());
        r
    }
}

impl KLineItemUtils {
    /// Registers the tables of database `db` under the key `db`, replacing
    /// what was registered there, and makes them the default when `default`
    /// holds.
    pub fn init_one_util(&mut self, db: &str, default: bool)
        ensures
            final(self)@ == init_spec(old(self)@, db@, default),
    {
        let util = Arc::new(KLineItemUtil::new(db));
        if default {
            self.default = Some(share(&util));
        }
        self.util_hmap.insert(db.to_owned(), util);
        assert(self@.utils =~= old(self)@.utils.insert(db@, template_for(db@)));
    }

    /// Whether a default database was chosen.
    pub fn has_default(&self) -> (b: bool)
        ensures
            b == self@.default is Some,
    {
        self.default.is_some()
    }

    /// The tables of the default database.
    pub fn default(&self) -> (u: Arc<KLineItemUtil>)
        requires
            self@.default is Some,
        ensures
            u@ == self@.default->0,
    {
        share(self.default.as_ref().unwrap())
    }

    /// Whether tables are registered under `key`.
    pub fn contains_key(&self, key: &str) -> (b: bool)
        ensures
            b == self@.utils.contains_key(key@),
    {
        self.util_hmap.contains_key(key)
    }

    /// The tables registered under `key`.
    pub fn by_key(&self, key: &str) -> (u: Arc<KLineItemUtil>)
        requires
            self@.utils.contains_key(key@),
        ensures
            u@ == self@.utils[key@],
    {
        share(self.util_hmap.get(key).unwrap())
    }
}

} // verus!
