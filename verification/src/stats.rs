//! Per-category statistics: identifier collection, status-label tallies,
//! and the one-time finalization of derived totals.
use vstd::prelude::*;

verus! {

/// Running statistics for one category of listings.
///
/// `ids` collects identifiers in input order, duplicates retained.
/// `total_raw`, `total_unique` and `total_duplicates` are derived and only
/// valid once `compute_data` has run; the seven `total_*` counters tally
/// the recognized status labels.
#[derive(Debug)]
pub struct ParcialStats {
    pub ids: Vec<u32>,
    pub name: String,
    pub total_raw: u32,
    pub total_unique: u32,
    pub total_duplicates: u32,
    pub total_ativo: u32,
    pub total_cancelado: u32,
    pub total_ficha: u32,
    pub total_locado: u32,
    pub total_provisorio: u32,
    pub total_suspenso: u32,
    pub total_vendido: u32,
}

/// The number of distinct values in a sequence of identifiers.
pub open spec fn unique_count(s: Seq<u32>) -> nat
    decreases s.len(),
{
    if s.len() == 0 {
        0
    } else {
        unique_count(s.drop_last()) + (if s.drop_last().contains(s.last()) {
            0nat
        } else {
            1nat
        })
    }
}

/// There are never more distinct identifiers than identifiers.
pub proof fn lemma_unique_count_le(s: Seq<u32>)
    ensures
        unique_count(s) <= s.len(),
    decreases s.len(),
{
    if s.len() > 0 {
        lemma_unique_count_le(s.drop_last());
    }
}

/// A label counts toward a status tally exactly when it equals the
/// tally's recognized label.
pub open spec fn bump(label: Seq<char>, target: Seq<char>) -> int {
    if label == target {
        1
    } else {
        0
    }
}

/// The seven status labels that are tallied; every other label is ignored.
pub open spec fn recognized(label: Seq<char>) -> bool {
    ||| label == "Ativo"@
    ||| label == "Cancelado"@
    ||| label == "Ficha"@
    ||| label == "Locado"@
    ||| label == "Provisório"@
    ||| label == "Suspenso"@
    ||| label == "Vendido"@
}

/// The two accumulators agree on all seven status counters.
pub open spec fn status_counts_eq(a: ParcialStats, b: ParcialStats) -> bool {
    &&& a.total_ativo == b.total_ativo
    &&& a.total_cancelado == b.total_cancelado
    &&& a.total_ficha == b.total_ficha
    &&& a.total_locado == b.total_locado
    &&& a.total_provisorio == b.total_provisorio
    &&& a.total_suspenso == b.total_suspenso
    &&& a.total_vendido == b.total_vendido
}

/// The two accumulators agree on the three derived totals.
pub open spec fn derived_totals_eq(a: ParcialStats, b: ParcialStats) -> bool {
    &&& a.total_raw == b.total_raw
    &&& a.total_unique == b.total_unique
    &&& a.total_duplicates == b.total_duplicates
}

/// The derived totals are the ones `compute_data` computes from `ids`.
pub open spec fn totals_computed(s: ParcialStats) -> bool {
    &&& s.total_raw == s.ids@.len()
    &&& s.total_unique == unique_count(s.ids@)
    &&& s.total_duplicates == s.ids@.len() - unique_count(s.ids@)
}

/// The accumulator is empty but for its name: no identifiers collected and
/// every counter zero.
pub open spec fn counters_zero(s: ParcialStats) -> bool {
    &&& s.ids@ == Seq::<u32>::empty()
    &&& s.total_raw == 0
    &&& s.total_unique == 0
    &&& s.total_duplicates == 0
    &&& s.total_ativo == 0
    &&& s.total_cancelado == 0
    &&& s.total_ficha == 0
    &&& s.total_locado == 0
    &&& s.total_provisorio == 0
    &&& s.total_suspenso == 0
    &&& s.total_vendido == 0
}

impl Default for ParcialStats {
    /// An empty accumulator with an empty name.
    fn default() -> (s: ParcialStats)
        ensures
            counters_zero(s),
            s.name@ == Seq::<char>::empty(),
    {
        ParcialStats {
            ids: Vec::new(),
            name: String::new(),
            total_raw: 0,
            total_unique: 0,
            total_duplicates: 0,
            total_ativo: 0,
            total_cancelado: 0,
            total_ficha: 0,
            total_locado: 0,
            total_provisorio: 0,
            total_suspenso: 0,
            total_vendido: 0,
        }
    }
}

/// The recognized labels are pairwise distinct, so at most one status
/// counter can match any given label.
proof fn lemma_labels_distinct()
    ensures
        "Ativo"@ != "Cancelado"@,
        "Ativo"@ != "Ficha"@,
        "Ativo"@ != "Locado"@,
        "Ativo"@ != "Provisório"@,
        "Ativo"@ != "Suspenso"@,
        "Ativo"@ != "Vendido"@,
        "Cancelado"@ != "Ficha"@,
        "Cancelado"@ != "Locado"@,
        "Cancelado"@ != "Provisório"@,
        "Cancelado"@ != "Suspenso"@,
        "Cancelado"@ != "Vendido"@,
        "Ficha"@ != "Locado"@,
        "Ficha"@ != "Provisório"@,
        "Ficha"@ != "Suspenso"@,
        "Ficha"@ != "Vendido"@,
        "Locado"@ != "Provisório"@,
        "Locado"@ != "Suspenso"@,
        "Locado"@ != "Vendido"@,
        "Provisório"@ != "Suspenso"@,
        "Provisório"@ != "Vendido"@,
        "Suspenso"@ != "Vendido"@,
{
    reveal_strlit("Ativo");
    reveal_strlit("Cancelado");
    reveal_strlit("Ficha");
    reveal_strlit("Locado");
    reveal_strlit("Provisório");
    reveal_strlit("Suspenso");
    reveal_strlit("Vendido");
    assert("Ativo"@.len() == 5);
    assert("Cancelado"@.len() == 9);
    assert("Ficha"@.len() == 5);
    assert("Locado"@.len() == 6);
    assert("Provisório"@.len() == 10);
    assert("Suspenso"@.len() == 8);
    assert("Vendido"@.len() == 7);
    assert("Ativo"@[0] != "Ficha"@[0]);
}

fn label_matches(value: &String, label: &str) -> (b: bool)
    ensures
        b == (value@ == label@),
{
    let l = label.to_owned();
    *value == l
}

impl ParcialStats {
    /// An empty accumulator carrying the given category name.
    pub fn new(name: &str) -> (s: ParcialStats)
        ensures
            counters_zero(s),
            s.name@ == name@,
    {
        ParcialStats {
            ids: Vec::new(),
            name: name.to_owned(),
            total_raw: 0,
            total_unique: 0,
            total_duplicates: 0,
            total_ativo: 0,
            total_cancelado: 0,
            total_ficha: 0,
            total_locado: 0,
            total_provisorio: 0,
            total_suspenso: 0,
            total_vendido: 0,
        }
    }

    /// Appends one identifier; duplicates are kept until finalization.
    pub fn add_id(&mut self, value: u32)
        ensures
            final(self).ids@ == old(self).ids@.push(value),
            final(self).name@ == old(self).name@,
            status_counts_eq(*old(self), *final(self)),
            derived_totals_eq(*old(self), *final(self)),
    {
        self.ids.push(value)
    }

    /// Increments the counter of the one recognized label the value
    /// matches; any other label changes nothing.
    pub fn add_status_computation(&mut self, value: String)
        requires
            value@ == "Ativo"@ ==> old(self).total_ativo < u32::MAX,
            value@ == "Cancelado"@ ==> old(self).total_cancelado < u32::MAX,
            value@ == "Ficha"@ ==> old(self).total_ficha < u32::MAX,
            value@ == "Locado"@ ==> old(self).total_locado < u32::MAX,
            value@ == "Provisório"@ ==> old(self).total_provisorio < u32::MAX,
            value@ == "Suspenso"@ ==> old(self).total_suspenso < u32::MAX,
            value@ == "Vendido"@ ==> old(self).total_vendido < u32::MAX,
        ensures
            final(self).ids@ == old(self).ids@,
            final(self).name@ == old(self).name@,
            derived_totals_eq(*old(self), *final(self)),
            final(self).total_ativo as int == old(self).total_ativo + bump(value@, "Ativo"@),
            final(self).total_cancelado as int == old(self).total_cancelado + bump(
                value@,
                "Cancelado"@,
            ),
            final(self).total_ficha as int == old(self).total_ficha + bump(value@, "Ficha"@),
            final(self).total_locado as int == old(self).total_locado + bump(value@, "Locado"@),
            final(self).total_provisorio as int == old(self).total_provisorio + bump(
                value@,
                "Provisório"@,
            ),
            final(self).total_suspenso as int == old(self).total_suspenso + bump(
                value@,
                "Suspenso"@,
            ),
            final(self).total_vendido as int == old(self).total_vendido + bump(value@, "Vendido"@),
            !recognized(value@) ==> status_counts_eq(*old(self), *final(self)),
    {
        proof {
            lemma_labels_distinct();
        }
        if label_matches(&value, "Ativo") {
            self.total_ativo = self.total_ativo + 1;
        } else if label_matches(&value, "Cancelado") {
            self.total_cancelado = self.total_cancelado + 1;
        } else if label_matches(&value, "Ficha") {
            self.total_ficha = self.total_ficha + 1;
        } else if label_matches(&value, "Locado") {
            self.total_locado = self.total_locado + 1;
        } else if label_matches(&value, "Provisório") {
            self.total_provisorio = self.total_provisorio + 1;
        } else if label_matches(&value, "Suspenso") {
            self.total_suspenso = self.total_suspenso + 1;
        } else if label_matches(&value, "Vendido") {
            self.total_vendido = self.total_vendido + 1;
        }
    }

    /// Finalizes the derived totals from the collected identifiers: the
    /// raw count is the number collected, the unique count is the number
    /// of distinct values, and the duplicate count is their difference,
    /// so the raw total always equals unique plus duplicates.
    pub fn compute_data(&mut self)
        requires
            old(self).ids@.len() <= u32::MAX,
        ensures
            final(self).ids@ == old(self).ids@,
            final(self).name@ == old(self).name@,
            status_counts_eq(*old(self), *final(self)),
            totals_computed(*final(self)),
            final(self).total_raw == final(self).total_unique + final(self).total_duplicates,
    {
        let n = self.ids.len();
        let mut seen: Vec<u32> = Vec::new();
        let mut i: usize = 0;
        proof {
            assert(self.ids@.take(0) =~= Seq::<u32>::empty());
        }
        while i < n
            invariant
                i <= n,
                n == self.ids@.len(),
                forall|x: u32| seen@.contains(x) <==> self.ids@.take(i as int).contains(x),
                seen@.len() == unique_count(self.ids@.take(i as int)),
            decreases n - i,
        {
            let id = self.ids[i];
            let ghost pre = seen@;
            let ghost t0 = self.ids@.take(i as int);
            let ghost t1 = self.ids@.take(i as int + 1);
            let already = contains_id(&seen, id);
            proof {
                assert(t1 =~= t0.push(id));
            }
            if !already {
                seen.push(id);
            }
            proof {
                if !already {
                    assert forall|x: u32| seen@.contains(x) <==> t1.contains(x) by {
                        lemma_push_contains(pre, id, x);
                        lemma_push_contains(t0, id, x);
                    }
                } else {
                    assert forall|x: u32| seen@.contains(x) <==> t1.contains(x) by {
                        lemma_push_contains(t0, id, x);
                    }
                }
                assert(t1.drop_last() == t0);
                assert(seen@.len() == unique_count(t1));
            }
            i = i + 1;
        }
        proof {
            assert(self.ids@.take(n as int) =~= self.ids@);
            lemma_unique_count_le(self.ids@);
        }
        let unique = seen.len();
        self.total_raw = n as u32;
        self.total_unique = unique as u32;
        self.total_duplicates = (n - unique) as u32;
    }
}

/// A pushed sequence holds a value exactly when the sequence before the
/// push did, or the value is the one pushed.
proof fn lemma_push_contains(s: Seq<u32>, a: u32, x: u32)
    ensures
        s.push(a).contains(x) <==> (s.contains(x) || x == a),
{
    if s.push(a).contains(x) {
        let k = choose|k: int| 0 <= k < s.push(a).len() && s.push(a)[k] == x;
        if k < s.len() {
            assert(s[k] == x);
        }
    }
    if s.contains(x) {
        let k = choose|k: int| 0 <= k < s.len() && s[k] == x;
        assert(s.push(a)[k] == x);
    }
    if x == a {
        assert(s.push(a)[s.len() as int] == x);
    }
}

fn contains_id(v: &Vec<u32>, x: u32) -> (b: bool)
    ensures
        b == v@.contains(x),
{
    let mut j: usize = 0;
    while j < v.len()
        invariant
            j <= v@.len(),
            forall|k: int| 0 <= k < j ==> v@[k] != x,
        decreases v@.len() - j,
    {
        if v[j] == x {
            proof {
                assert(v@[j as int] == x);
            }
            return true;
        }
        j = j + 1;
    }
    false
}

/// Law: after finalization the raw total is exactly the unique total plus
/// the duplicate total.
pub proof fn lemma_totals_balance(s: ParcialStats)
    requires
        totals_computed(s),
        s.ids@.len() <= u32::MAX,
    ensures
        s.total_raw == s.total_unique + s.total_duplicates,
{
    lemma_unique_count_le(s.ids@);
}

/// Law: finalization is idempotent. The derived totals are a function of
/// the collected identifiers alone, and `compute_data` leaves those
/// identifiers unchanged, so two accumulators finalized from the same
/// identifiers carry identical totals.
pub proof fn lemma_compute_data_idempotent(a: ParcialStats, b: ParcialStats)
    requires
        a.ids@ == b.ids@,
        totals_computed(a),
        totals_computed(b),
    ensures
        a.total_raw == b.total_raw,
        a.total_unique == b.total_unique,
        a.total_duplicates == b.total_duplicates,
{
}

/// Law: an unrecognized status label changes nothing: every status
/// counter keeps its value, and the identifiers and derived totals are
/// untouched in any case.
pub proof fn lemma_unrecognized_label_bumps_nothing(label: Seq<char>)
    requires
        !recognized(label),
    ensures
        bump(label, "Ativo"@) == 0,
        bump(label, "Cancelado"@) == 0,
        bump(label, "Ficha"@) == 0,
        bump(label, "Locado"@) == 0,
        bump(label, "Provisório"@) == 0,
        bump(label, "Suspenso"@) == 0,
        bump(label, "Vendido"@) == 0,
{
}

} // verus!
