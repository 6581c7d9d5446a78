//! The bundled pure-component catalog: the mapping of catalog records onto
//! [`Component`]s, the catalog itself keyed by lower-cased name, the
//! case- and whitespace-insensitive lookup, and the sorted list of names.
//!
//! # Numbers
//!
//! Every numeric property is held as the IEEE-754 binary64 bit pattern of
//! its value (`f64::to_bits`), in the engine's canonical units: `tc` and `tb`
//! in K, `pc` in kPa, `vc` and `liquid_volume` in cm³/mol, `mw` in g/mol,
//! `omega` and `zc` dimensionless, `psat_coeffs` the reduced-Antoine
//! coefficients and `cp_coeffs` the ideal-gas Cp°/R polynomial. The catalog
//! only moves these values; the bit pattern `0` is `0.0`.

use vstd::prelude::*;

use crate::saturation::SatPressureModel;
use crate::text;

verus! {

broadcast use vstd::seq_lib::group_to_multiset_ensures;

/// Pure-component properties, each number as the bit pattern of its `f64`.
#[derive(Debug)]
pub struct Component {
    /// Canonical name, original casing.
    pub name: String,
    /// Critical temperature (K).
    pub tc: u64,
    /// Critical pressure (kPa).
    pub pc: u64,
    /// Critical volume (cm³/mol).
    pub vc: u64,
    /// Critical compressibility.
    pub zc: u64,
    /// Acentric factor.
    pub omega: u64,
    /// Normal boiling point (K).
    pub tb: u64,
    /// Molar mass (g/mol).
    pub mw: u64,
    /// Ideal-gas Cp°/R polynomial coefficients.
    pub cp_coeffs: [u64; 5],
    /// Saturation-pressure correlation coefficients.
    pub psat_coeffs: Vec<u64>,
    /// Liquid molar volume (cm³/mol).
    pub liquid_volume: u64,
    /// Saturation-pressure correlation that `psat_coeffs` belong to.
    pub sat_model: SatPressureModel,
    /// Dipole moment.
    pub dipole_moment: u64,
    /// Solubility parameter.
    pub solubility_param: u64,
    /// Rackett compressibility ZRA.
    pub zra: u64,
    /// SRK acentric factor.
    pub omega_srk: u64,
    /// Polar parameter m.
    pub m_polar: u64,
    /// Polar parameter n.
    pub n_polar: u64,
    /// Polar parameter g.
    pub g_polar: u64,
    /// PRSV K₁ parameter.
    pub prsv_k1: u64,
}

/// The mathematical value of a [`Component`].
pub struct ComponentView {
    pub name: Seq<char>,
    pub tc: u64,
    pub pc: u64,
    pub vc: u64,
    pub zc: u64,
    pub omega: u64,
    pub tb: u64,
    pub mw: u64,
    pub cp_coeffs: Seq<u64>,
    pub psat_coeffs: Seq<u64>,
    pub liquid_volume: u64,
    pub sat_model: SatPressureModel,
    pub dipole_moment: u64,
    pub solubility_param: u64,
    pub zra: u64,
    pub omega_srk: u64,
    pub m_polar: u64,
    pub n_polar: u64,
    pub g_polar: u64,
    pub prsv_k1: u64,
}

impl View for Component {
    type V = ComponentView;

    open spec fn view(&self) -> ComponentView {
        ComponentView {
            name: self.name@,
            tc: self.tc,
            pc: self.pc,
            vc: self.vc,
            zc: self.zc,
            omega: self.omega,
            tb: self.tb,
            mw: self.mw,
            cp_coeffs: self.cp_coeffs@,
            psat_coeffs: self.psat_coeffs@,
            liquid_volume: self.liquid_volume,
            sat_model: self.sat_model,
            dipole_moment: self.dipole_moment,
            solubility_param: self.solubility_param,
            zra: self.zra,
            omega_srk: self.omega_srk,
            m_polar: self.m_polar,
            n_polar: self.n_polar,
            g_polar: self.g_polar,
            prsv_k1: self.prsv_k1,
        }
    }
}

impl Component {
    /// Returns a copy of the component with the same value.
    pub fn duplicate(&self) -> (r: Component)
        ensures
            r@ == self@,
    {
        let psat = self.psat_coeffs.clone();
        proof {
            assert(psat@ =~= self.psat_coeffs@);
        }
        Component {
            name: self.name.clone(),
            tc: self.tc,
            pc: self.pc,
            vc: self.vc,
            zc: self.zc,
            omega: self.omega,
            tb: self.tb,
            mw: self.mw,
            cp_coeffs: self.cp_coeffs,
            psat_coeffs: psat,
            liquid_volume: self.liquid_volume,
            sat_model: self.sat_model,
            dipole_moment: self.dipole_moment,
            solubility_param: self.solubility_param,
            zra: self.zra,
            omega_srk: self.omega_srk,
            m_polar: self.m_polar,
            n_polar: self.n_polar,
            g_polar: self.g_polar,
            prsv_k1: self.prsv_k1,
        }
    }
}

/// One catalog record as stored: the constants the catalog carries for a
/// compound (every number as the bit pattern of its `f64`; an absent
/// number is `0`, an absent list empty).
#[derive(Debug)]
pub struct RawComponent {
    pub formula: String,
    pub cas: String,
    pub mw: u64,
    pub tc: u64,
    pub pc: u64,
    pub omega: u64,
    pub zc: u64,
    pub vc: u64,
    pub tb: u64,
    pub psat_coeffs: Vec<u64>,
    pub cp_coeffs: Vec<u64>,
    pub liquid_volume: u64,
}

/// The five Cp°/R coefficients taken from a record's list: a short list
/// leaves the tail at 0, a long one is truncated.
pub open spec fn fixed_cp(s: Seq<u64>) -> Seq<u64> {
    Seq::new(5, |k: int| if k < s.len() { s[k] } else { 0u64 })
}

/// The component that a record maps onto: the carried constants copied,
/// the saturation model Antoine (the catalog ships Antoine coefficients),
/// every constant the catalog does not carry left at 0.
pub open spec fn mapped(name: Seq<char>, raw: RawComponent) -> ComponentView {
    ComponentView {
        name: name,
        tc: raw.tc,
        pc: raw.pc,
        vc: raw.vc,
        zc: raw.zc,
        omega: raw.omega,
        tb: raw.tb,
        mw: raw.mw,
        cp_coeffs: fixed_cp(raw.cp_coeffs@),
        psat_coeffs: raw.psat_coeffs@,
        liquid_volume: raw.liquid_volume,
        sat_model: SatPressureModel::Antoine,
        dipole_moment: 0,
        solubility_param: 0,
        zra: 0,
        omega_srk: 0,
        m_polar: 0,
        n_polar: 0,
        g_polar: 0,
        prsv_k1: 0,
    }
}

/// Maps one catalog record (named `name`, its key in the catalog) onto a
/// [`Component`].
pub fn to_component(name: &str, raw: &RawComponent) -> (c: Component)
    ensures
        c@ == mapped(name@, *raw),
        c.name@ == name@,
        c.tc == raw.tc && c.pc == raw.pc && c.vc == raw.vc && c.zc == raw.zc,
        c.omega == raw.omega && c.tb == raw.tb && c.mw == raw.mw,
        c.liquid_volume == raw.liquid_volume,
        c.psat_coeffs@ == raw.psat_coeffs@,
        c.sat_model == SatPressureModel::Antoine,
{
    let v = &raw.cp_coeffs;
    let n: usize = v.len();
    let c0: u64 = if 0 < n { v[0] } else { 0 };
    let c1: u64 = if 1 < n { v[1] } else { 0 };
    let c2: u64 = if 2 < n { v[2] } else { 0 };
    let c3: u64 = if 3 < n { v[3] } else { 0 };
    let c4: u64 = if 4 < n { v[4] } else { 0 };
    let cp: [u64; 5] = [c0, c1, c2, c3, c4];
    let psat = raw.psat_coeffs.clone();
    proof {
        assert(psat@ =~= raw.psat_coeffs@);
        assert(cp@ =~= fixed_cp(raw.cp_coeffs@));
    }
    Component {
        name: name.to_owned(),
        tc: raw.tc,
        pc: raw.pc,
        vc: raw.vc,
        zc: raw.zc,
        omega: raw.omega,
        tb: raw.tb,
        mw: raw.mw,
        cp_coeffs: cp,
        psat_coeffs: psat,
        liquid_volume: raw.liquid_volume,
        sat_model: SatPressureModel::Antoine,
        dipole_moment: 0,
        solubility_param: 0,
        zra: 0,
        omega_srk: 0,
        m_polar: 0,
        n_polar: 0,
        g_polar: 0,
        prsv_k1: 0,
    }
}

/// The catalog key of a name: its lower-cased form.
pub open spec fn key(name: Seq<char>) -> Seq<char> {
    text::lowercase(name)
}

/// The key a query resolves to: the query trimmed, then lower-cased.
pub open spec fn query_key(name: Seq<char>) -> Seq<char> {
    text::lowercase(text::trimmed(name))
}

/// No two entries share a key.
pub open spec fn keys_distinct(s: Seq<ComponentView>) -> bool {
    forall|i: int, j: int|
        0 <= i < s.len() && 0 <= j < s.len() && i != j ==> key(#[trigger] s[i].name) != key(
            #[trigger] s[j].name,
        )
}

/// Whether some entry has key `k`.
pub open spec fn has_key(s: Seq<ComponentView>, k: Seq<char>) -> bool {
    exists|i: int| 0 <= i < s.len() && key(#[trigger] s[i].name) == k
}

/// The position of the entry with key `k` (meaningful when there is one).
pub open spec fn key_index(s: Seq<ComponentView>, k: Seq<char>) -> int {
    choose|i: int| 0 <= i < s.len() && key(#[trigger] s[i].name) == k
}

/// The entry with key `k`, if any.
pub open spec fn find(s: Seq<ComponentView>, k: Seq<char>) -> Option<ComponentView> {
    if has_key(s, k) {
        Some(s[key_index(s, k)])
    } else {
        None
    }
}

/// The catalog after adding `c`: an entry with the same key is replaced in
/// place, otherwise `c` is appended.
pub open spec fn inserted(s: Seq<ComponentView>, c: ComponentView) -> Seq<ComponentView> {
    if has_key(s, key(c.name)) {
        s.update(key_index(s, key(c.name)), c)
    } else {
        s.push(c)
    }
}

/// The catalog built from records in order, each mapped and inserted.
pub open spec fn built(records: Seq<(String, RawComponent)>) -> Seq<ComponentView>
    decreases records.len(),
{
    if records.len() == 0 {
        Seq::empty()
    } else {
        inserted(
            built(records.drop_last()),
            mapped(records.last().0@, records.last().1),
        )
    }
}

/// The names of the entries, in catalog order.
pub open spec fn names(s: Seq<ComponentView>) -> Seq<Seq<char>> {
    s.map_values(|c: ComponentView| c.name)
}

/// A list of texts in [`text::lex_le`] order.
pub open spec fn sorted(s: Seq<Seq<char>>) -> bool {
    forall|i: int, j: int| 0 <= i < j < s.len() ==> text::lex_le(#[trigger] s[i], #[trigger] s[j])
}

/// The pure-component catalog, keyed by lower-cased name.
pub struct ComponentCatalog {
    entries: Vec<Component>,
    keys: Vec<String>,
}

impl View for ComponentCatalog {
    type V = Seq<ComponentView>;

    open spec fn view(&self) -> Seq<ComponentView> {
        self.spec_entries()
    }
}

impl ComponentCatalog {
    /// The entries, in catalog order.
    pub closed spec fn spec_entries(&self) -> Seq<ComponentView> {
        self.entries@.map_values(|c: Component| c@)
    }

    /// The stored keys are the lower-cased entry names, and no two agree.
    #[verifier::type_invariant]
    closed spec fn wf(&self) -> bool {
        &&& self.keys@.len() == self.entries@.len()
        &&& forall|i: int| 0 <= i < self.keys@.len() ==> #[trigger] self.keys@[i]@ == key(self.entries@[i]@.name)
        &&& keys_distinct(self@)
    }

    /// The view at position `i` is the view of the stored entry there.
    proof fn lemma_view_index(&self, i: int)
        requires
            0 <= i < self.entries@.len(),
        ensures
            self@[i] == self.entries@[i]@,
            self@.len() == self.entries@.len(),
    {
    }

    /// An empty catalog.
    pub fn new() -> (c: ComponentCatalog)
        ensures
            c@ == Seq::<ComponentView>::empty(),
    {
        let c = ComponentCatalog { entries: Vec::new(), keys: Vec::new() };
        assert(c@ =~= Seq::<ComponentView>::empty());
        c
    }

    /// Number of entries.
    pub fn len(&self) -> (n: usize)
        ensures
            n == self@.len(),
            keys_distinct(self@),
    {
        proof {
            use_type_invariant(self);
        }
        self.entries.len()
    }

    /// The position of the stored key equal to `k`, if any.
    fn position(&self, k: &String) -> (r: Option<usize>)
        ensures
            match r {
                Some(i) => i < self@.len() && key(self@[i as int].name) == k@ && has_key(self@, k@)
                    && key_index(self@, k@) == i,
                None => !has_key(self@, k@),
            },
    {
        proof {
            use_type_invariant(self);
        }
        let mut i: usize = 0;
        while i < self.keys.len()
            invariant
                self.wf(),
                i <= self.keys@.len(),
                forall|j: int| 0 <= j < i ==> self.keys@[j]@ != k@,
            decreases self.keys@.len() - i,
        {
            if self.keys[i] == *k {
                proof {
                    self.lemma_view_index(i as int);
                    assert(key(self@[i as int].name) == k@);
                    assert(has_key(self@, k@));
                    let j: int = key_index(self@, k@);
                    if j != i {
                        assert(key(self@[j].name) != key(self@[i as int].name));
                    }
                }
                return Some(i);
            }
            i = i + 1;
        }
        proof {
            if has_key(self@, k@) {
                let j: int = key_index(self@, k@);
                self.lemma_view_index(j);
                assert(self.keys@[j]@ == k@);
            }
        }
        None
    }

    /// Adds `c` under the key `c.name` lower-cased, replacing an entry with
    /// the same key.
    pub fn insert(&mut self, c: Component)
        ensures
            final(self)@ == inserted(old(self)@, c@),
            keys_distinct(final(self)@),
    {
        let k = text::to_lowercase(c.name.as_str());
        let pos = self.position(&k);
        let mut current = ComponentCatalog::new();
        std::mem::swap(&mut current, self);
        proof {
            use_type_invariant(&current);
        }
        let ghost before = current@;
        let ComponentCatalog { mut entries, mut keys } = current;
        match pos {
            Some(i) => {
                entries.set(i, c);
                proof {
                    let after = entries@.map_values(|e: Component| e@);
                    assert(after =~= before.update(i as int, c@));
                    assert forall|a: int, b: int|
                        0 <= a < after.len() && 0 <= b < after.len() && a != b implies key(
                        #[trigger] after[a].name,
                    ) != key(#[trigger] after[b].name) by {
                        if a != i {
                            assert(after[a] == before[a]);
                        }
                        if b != i {
                            assert(after[b] == before[b]);
                        }
                        assert(key(before[i as int].name) == key(c@.name));
                    }
                    assert forall|j: int| 0 <= j < keys@.len() implies #[trigger] keys@[j]@ == key(
                        entries@[j]@.name,
                    ) by {
                        if j != i {
                            assert(after[j] == before[j]);
                        }
                    }
                }
            },
            None => {
                entries.push(c);
                keys.push(k);
                proof {
                    let after = entries@.map_values(|e: Component| e@);
                    assert(after =~= before.push(c@));
                    assert forall|a: int, b: int|
                        0 <= a < after.len() && 0 <= b < after.len() && a != b implies key(
                        #[trigger] after[a].name,
                    ) != key(#[trigger] after[b].name) by {
                        if a < before.len() {
                            assert(after[a] == before[a]);
                        }
                        if b < before.len() {
                            assert(after[b] == before[b]);
                        }
                    }
                    assert forall|j: int| 0 <= j < keys@.len() implies #[trigger] keys@[j]@ == key(
                        entries@[j]@.name,
                    ) by {
                        if j < before.len() {
                            assert(after[j] == before[j]);
                        }
                    }
                }
            },
        }
        *self = ComponentCatalog { entries, keys };
    }

    /// Builds the catalog from `(name, record)` pairs: each record is mapped
    /// onto a component named by its key and inserted in order, a later
    /// record replacing an earlier one whose name lower-cases the same.
    pub fn from_records(records: &Vec<(String, RawComponent)>) -> (c: ComponentCatalog)
        ensures
            c@ == built(records@),
            keys_distinct(c@),
    {
        let mut c = ComponentCatalog::new();
        let mut i: usize = 0;
        while i < records.len()
            invariant
                i <= records@.len(),
                c@ == built(records@.take(i as int)),
            decreases records@.len() - i,
        {
            let comp = to_component(records[i].0.as_str(), &records[i].1);
            proof {
                assert(records@.take(i as int + 1).drop_last() =~= records@.take(i as int));
                assert(records@.take(i as int + 1).last() == records@[i as int]);
            }
            c.insert(comp);
            i = i + 1;
        }
        assert(records@.take(records@.len() as int) =~= records@);
        proof {
            use_type_invariant(&c);
        }
        c
    }
}

/// Returns `name` trimmed of surrounding whitespace and lower-cased: the
/// key that a lookup searches for.
pub fn normalize_name(name: &str) -> (k: String)
    ensures
        k@ == query_key(name@),
{
    let t = text::trim(name);
    text::to_lowercase(t)
}

/// Looks up a component by name, ignoring surrounding whitespace and
/// letter case: the query is trimmed and lower-cased and compared with the
/// lower-cased catalog names. Returns a copy of the matching entry, or
/// `None` if no entry has that key.
pub fn component(catalog: &ComponentCatalog, name: &str) -> (r: Option<Component>)
    ensures
        match r {
            Some(c) => find(catalog@, query_key(name@)) == Some(c@),
            None => find(catalog@, query_key(name@)) is None,
        },
{
    let k = normalize_name(name);
    proof {
        use_type_invariant(catalog);
    }
    match catalog.position(&k) {
        Some(i) => {
            proof {
                catalog.lemma_view_index(i as int);
            }
            Some(catalog.entries[i].duplicate())
        },
        None => None,
    }
}

/// Position at which `x` is inserted into the sorted list `v` so that it
/// stays sorted (after every element not greater than `x`).
fn sorted_position(v: &Vec<String>, x: &String) -> (p: usize)
    requires
        sorted(v@.map_values(|s: String| s@)),
    ensures
        p <= v@.len(),
        forall|k: int| 0 <= k < p ==> text::lex_le(#[trigger] v@[k]@, x@),
        forall|k: int| p <= k < v@.len() ==> text::lex_le(x@, #[trigger] v@[k]@) && x@ != v@[k]@,
{
    let ghost w = v@.map_values(|s: String| s@);
    let mut p: usize = 0;
    while p < v.len() && text::str_le(v[p].as_str(), x.as_str())
        invariant
            p <= v@.len(),
            w == v@.map_values(|s: String| s@),
            sorted(w),
            forall|k: int| 0 <= k < p ==> text::lex_le(#[trigger] v@[k]@, x@),
        decreases v@.len() - p,
    {
        p = p + 1;
    }
    proof {
        if p < v@.len() {
            assert(!text::lex_le(v@[p as int]@, x@));
            text::lemma_lex_total(v@[p as int]@, x@);
            assert forall|k: int| p <= k < v@.len() implies text::lex_le(x@, #[trigger] v@[k]@)
                && x@ != v@[k]@ by {
                if k > p {
                    assert(w[p as int] == v@[p as int]@);
                    assert(w[k] == v@[k]@);
                    assert(text::lex_le(w[p as int], w[k]));
                    text::lemma_lex_transitive(x@, v@[p as int]@, v@[k]@);
                    if x@ == v@[k]@ {
                        text::lemma_lex_antisymmetric(v@[p as int]@, x@);
                    }
                } else {
                    if x@ == v@[k]@ {
                        text::lemma_lex_total(x@, x@);
                    }
                }
            }
        }
    }
    p
}

/// Inserting an element at a position between the elements not greater
/// and the elements greater than it keeps a list sorted.
proof fn lemma_sorted_insert(w: Seq<Seq<char>>, p: int, x: Seq<char>)
    requires
        sorted(w),
        0 <= p <= w.len(),
        forall|k: int| 0 <= k < p ==> text::lex_le(#[trigger] w[k], x),
        forall|k: int| p <= k < w.len() ==> text::lex_le(x, #[trigger] w[k]),
    ensures
        sorted(w.insert(p, x)),
{
    let u = w.insert(p, x);
    assert forall|i: int, j: int| 0 <= i < j < u.len() implies text::lex_le(
        #[trigger] u[i],
        #[trigger] u[j],
    ) by {
        if i < p && j < p {
            assert(u[i] == w[i] && u[j] == w[j]);
        } else if i < p && j == p {
            assert(u[i] == w[i]);
        } else if i < p && j > p {
            assert(u[i] == w[i] && u[j] == w[j - 1]);
        } else if i == p {
            assert(u[j] == w[j - 1]);
        } else {
            assert(u[i] == w[i - 1] && u[j] == w[j - 1]);
        }
    }
}

/// Names of all catalog entries (original casing), sorted.
pub fn available(catalog: &ComponentCatalog) -> (r: Vec<String>)
    ensures
        r@.len() == catalog@.len(),
        sorted(r@.map_values(|s: String| s@)),
        r@.map_values(|s: String| s@).to_multiset() == names(catalog@).to_multiset(),
{
    proof {
        use_type_invariant(catalog);
    }
    let mut out: Vec<String> = Vec::new();
    let mut i: usize = 0;
    let n: usize = catalog.entries.len();
    assert(out@.map_values(|s: String| s@) =~= Seq::<Seq<char>>::empty());
    assert(names(catalog@).take(0) =~= Seq::<Seq<char>>::empty());
    while i < n
        invariant
            n == catalog.entries@.len(),
            catalog.wf(),
            i <= n,
            out@.len() == i,
            sorted(out@.map_values(|s: String| s@)),
            out@.map_values(|s: String| s@).to_multiset() == names(catalog@).take(i as int).to_multiset(),
        decreases n - i,
    {
        let name = catalog.entries[i].name.clone();
        let p: usize = sorted_position(&out, &name);
        let ghost w = out@.map_values(|s: String| s@);
        out.insert(p, name);
        proof {
            catalog.lemma_view_index(i as int);
            assert(out@.map_values(|s: String| s@) =~= w.insert(p as int, name@));
            lemma_sorted_insert(w, p as int, name@);
            assert(names(catalog@).take(i as int + 1) =~= names(catalog@).take(i as int).push(name@));
        }
        i = i + 1;
    }
    assert(names(catalog@).take(n as int) =~= names(catalog@));
    out
}

/// A lookup finds something exactly when one of the listed names (those
/// that [`available`] returns, in any order) lower-cases to the trimmed,
/// lower-cased query; what it finds then carries one of the listed names,
/// and that name lower-cases to the query's key.
pub proof fn lemma_lookup_matches_listed_names(
    catalog: Seq<ComponentView>,
    listed: Seq<Seq<char>>,
    q: Seq<char>,
)
    requires
        listed.to_multiset() == names(catalog).to_multiset(),
    ensures
        find(catalog, query_key(q)) is Some <==> exists|j: int|
            0 <= j < listed.len() && key(#[trigger] listed[j]) == query_key(q),
        find(catalog, query_key(q)) is Some ==> listed.contains(find(catalog, query_key(q))->0.name)
            && key(find(catalog, query_key(q))->0.name) == query_key(q),
{
    let k = query_key(q);
    let ns = names(catalog);
    listed.to_multiset_ensures();
    ns.to_multiset_ensures();
    if has_key(catalog, k) {
        let i: int = key_index(catalog, k);
        let n = catalog[i].name;
        assert(ns[i] == n);
        assert(ns.contains(n));
        assert(ns.to_multiset().count(n) > 0);
        assert(listed.contains(n));
        let j: int = choose|j: int| 0 <= j < listed.len() && listed[j] == n;
        assert(key(listed[j]) == k);
    }
    if exists|j: int| 0 <= j < listed.len() && key(#[trigger] listed[j]) == k {
        let j: int = choose|j: int| 0 <= j < listed.len() && key(#[trigger] listed[j]) == k;
        assert(listed.contains(listed[j]));
        assert(listed.to_multiset().count(listed[j]) > 0);
        assert(ns.contains(listed[j]));
        let i: int = choose|i: int| 0 <= i < ns.len() && ns[i] == listed[j];
        assert(key(catalog[i].name) == k);
        assert(has_key(catalog, k));
    }
}

/// Surrounding whitespace never changes what a query finds.
pub proof fn lemma_lookup_ignores_surrounding_space(catalog: Seq<ComponentView>, a: Seq<char>)
    ensures
        find(catalog, query_key(text::trimmed(a))) == find(catalog, query_key(a)),
{
    text::lemma_trimmed_idempotent(a);
}

/// With distinct keys, every entry is found under its own key, and in
/// particular by its own name when that name has no surrounding
/// whitespace.
pub proof fn lemma_every_entry_is_found(catalog: Seq<ComponentView>, i: int)
    requires
        keys_distinct(catalog),
        0 <= i < catalog.len(),
    ensures
        find(catalog, key(catalog[i].name)) == Some(catalog[i]),
        text::trimmed(catalog[i].name) == catalog[i].name ==> find(
            catalog,
            query_key(catalog[i].name),
        ) == Some(catalog[i]),
{
    assert(has_key(catalog, key(catalog[i].name)));
    let j: int = key_index(catalog, key(catalog[i].name));
    if j != i {
        assert(key(catalog[j].name) != key(catalog[i].name));
    }
}

/// After inserting `c`, looking up its key finds `c`, every other key
/// finds what it found before, and keys stay distinct.
pub proof fn lemma_insert_then_find(catalog: Seq<ComponentView>, c: ComponentView, k: Seq<char>)
    requires
        keys_distinct(catalog),
    ensures
        keys_distinct(inserted(catalog, c)),
        find(inserted(catalog, c), key(c.name)) == Some(c),
        k != key(c.name) ==> find(inserted(catalog, c), k) == find(catalog, k),
{
    let s = inserted(catalog, c);
    if has_key(catalog, key(c.name)) {
        let i: int = key_index(catalog, key(c.name));
        assert(s[i] == c);
        assert forall|a: int, b: int| 0 <= a < s.len() && 0 <= b < s.len() && a != b implies key(
            #[trigger] s[a].name,
        ) != key(#[trigger] s[b].name) by {
            if a != i {
                assert(s[a] == catalog[a]);
            }
            if b != i {
                assert(s[b] == catalog[b]);
            }
        }
        assert(has_key(s, key(c.name)));
        let j: int = key_index(s, key(c.name));
        if j != i {
            assert(key(s[j].name) != key(s[i].name));
        }
        if k != key(c.name) {
            if has_key(catalog, k) {
                let m: int = key_index(catalog, k);
                assert(m != i);
                assert(s[m] == catalog[m]);
                assert(has_key(s, k));
                let m2: int = key_index(s, k);
                if m2 != m {
                    assert(key(s[m2].name) != key(s[m].name));
                }
            } else if has_key(s, k) {
                let m2: int = key_index(s, k);
                assert(m2 != i);
                assert(s[m2] == catalog[m2]);
            }
        }
    } else {
        assert(s[catalog.len() as int] == c);
        assert forall|a: int, b: int| 0 <= a < s.len() && 0 <= b < s.len() && a != b implies key(
            #[trigger] s[a].name,
        ) != key(#[trigger] s[b].name) by {
            if a < catalog.len() {
                assert(s[a] == catalog[a]);
            }
            if b < catalog.len() {
                assert(s[b] == catalog[b]);
            }
        }
        assert(has_key(s, key(c.name)));
        let j: int = key_index(s, key(c.name));
        if j != catalog.len() {
            assert(s[j] == catalog[j]);
        }
        if k != key(c.name) {
            if has_key(catalog, k) {
                let m: int = key_index(catalog, k);
                assert(s[m] == catalog[m]);
                assert(has_key(s, k));
                let m2: int = key_index(s, k);
                if m2 != m {
                    if m2 < catalog.len() {
                        assert(s[m2] == catalog[m2]);
                    }
                }
            } else if has_key(s, k) {
                let m2: int = key_index(s, k);
                if m2 < catalog.len() {
                    assert(s[m2] == catalog[m2]);
                }
            }
        }
    }
}

/// A record's constants land in the component's fields of the same name:
/// critical constants, acentric factor, boiling point, molar mass, liquid
/// volume and saturation coefficients are copied one for one, the Cp°/R
/// coefficients are the record's first five (zero-filled), and the
/// constants the catalog does not carry are 0.
pub proof fn lemma_record_fields_carried(name: Seq<char>, raw: RawComponent)
    ensures
        mapped(name, raw).name == name,
        mapped(name, raw).tc == raw.tc,
        mapped(name, raw).pc == raw.pc,
        mapped(name, raw).vc == raw.vc,
        mapped(name, raw).zc == raw.zc,
        mapped(name, raw).omega == raw.omega,
        mapped(name, raw).tb == raw.tb,
        mapped(name, raw).mw == raw.mw,
        mapped(name, raw).liquid_volume == raw.liquid_volume,
        mapped(name, raw).psat_coeffs == raw.psat_coeffs@,
        mapped(name, raw).cp_coeffs.len() == 5,
        forall|k: int| 0 <= k < 5 && k < raw.cp_coeffs@.len() ==> mapped(name, raw).cp_coeffs[k]
            == raw.cp_coeffs@[k],
        forall|k: int| 0 <= k < 5 && k >= raw.cp_coeffs@.len() ==> mapped(name, raw).cp_coeffs[k]
            == 0,
        mapped(name, raw).sat_model == SatPressureModel::Antoine,
        mapped(name, raw).dipole_moment == 0 && mapped(name, raw).solubility_param == 0
            && mapped(name, raw).zra == 0 && mapped(name, raw).omega_srk == 0 && mapped(name, raw).m_polar
            == 0 && mapped(name, raw).n_polar == 0 && mapped(name, raw).g_polar == 0 && mapped(name, raw).prsv_k1
            == 0,
{
}

} // verus!
