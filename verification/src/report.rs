//! The aggregation pass: one traversal of the decoded rows classifies
//! each record and folds its identifier and status label into the
//! accumulator of its category; the four accumulators are then finalized
//! and merged into a grand total.
use vstd::prelude::*;
use crate::classify::PropertyType;
use crate::classify::classify;
use crate::classify::property_type;
use crate::merge::StatField;
use crate::merge::field_of;
use crate::merge::merged_from;
use crate::merge::stats_seq;
use crate::merge::sum_by;
use crate::merge::sum_stats;
use crate::merge::sums_fit;
use crate::stats::ParcialStats;
use crate::stats::bump;
use crate::stats::lemma_unique_count_le;
use crate::stats::totals_computed;

verus! {

/// One decoded listing row as the core reads it: the identifier, whether
/// each of the two prices is present (strictly positive), and the status
/// label. Upstream decoding defaults a missing identifier to 0, a missing
/// price to absent, and a missing status to a sentinel label.
pub struct ListingRecord {
    pub id: u32,
    pub sale_positive: bool,
    pub rent_positive: bool,
    pub status: String,
}

/// The category one record falls in.
pub open spec fn record_category(r: ListingRecord) -> PropertyType {
    classify(r.sale_positive, r.rent_positive)
}

/// The identifiers of the rows of one category, in input order.
pub open spec fn ids_for(rows: Seq<ListingRecord>, t: PropertyType) -> Seq<u32>
    decreases rows.len(),
{
    if rows.len() == 0 {
        Seq::empty()
    } else {
        ids_for(rows.drop_last(), t) + (if record_category(rows.last()) == t {
            seq![rows.last().id]
        } else {
            Seq::<u32>::empty()
        })
    }
}

/// How many rows of one category carry the given status label.
pub open spec fn status_count(rows: Seq<ListingRecord>, t: PropertyType, label: Seq<char>) -> int
    decreases rows.len(),
{
    if rows.len() == 0 {
        0
    } else {
        status_count(rows.drop_last(), t, label) + (if record_category(rows.last()) == t {
            bump(rows.last().status@, label)
        } else {
            0
        })
    }
}

/// The accumulator holds exactly the identifiers and the status tallies
/// of the rows of its category.
pub open spec fn accumulated(a: ParcialStats, rows: Seq<ListingRecord>, t: PropertyType) -> bool {
    &&& a.ids@ == ids_for(rows, t)
    &&& a.total_ativo as int == status_count(rows, t, "Ativo"@)
    &&& a.total_cancelado as int == status_count(rows, t, "Cancelado"@)
    &&& a.total_ficha as int == status_count(rows, t, "Ficha"@)
    &&& a.total_locado as int == status_count(rows, t, "Locado"@)
    &&& a.total_provisorio as int == status_count(rows, t, "Provisório"@)
    &&& a.total_suspenso as int == status_count(rows, t, "Suspenso"@)
    &&& a.total_vendido as int == status_count(rows, t, "Vendido"@)
}

/// The five results of one aggregation run: one finalized accumulator per
/// category and their merged grand total.
pub struct StatsReport {
    pub sale: ParcialStats,
    pub rent: ParcialStats,
    pub sale_rent: ParcialStats,
    pub error: ParcialStats,
    pub total: ParcialStats,
}

/// What a finished report holds of its rows: each category accumulator
/// carries exactly its rows' identifiers and status tallies, is
/// finalized, and bears its fixed name; the grand total is the merge of
/// the four, in that fixed order.
pub open spec fn report_ok(rep: StatsReport, rows: Seq<ListingRecord>) -> bool {
    &&& accumulated(rep.sale, rows, PropertyType::Sale)
    &&& accumulated(rep.rent, rows, PropertyType::Rent)
    &&& accumulated(rep.sale_rent, rows, PropertyType::SaleRent)
    &&& accumulated(rep.error, rows, PropertyType::Error)
    &&& totals_computed(rep.sale)
    &&& totals_computed(rep.rent)
    &&& totals_computed(rep.sale_rent)
    &&& totals_computed(rep.error)
    &&& rep.sale.name@ == "sale"@
    &&& rep.rent.name@ == "rent"@
    &&& rep.sale_rent.name@ == "rent-sale"@
    &&& rep.error.name@ == "error"@
    &&& merged_from(rep.total, seq![rep.sale, rep.rent, rep.sale_rent, rep.error])
}

/// Every row lands in exactly one category, so the four per-category
/// identifier sequences partition the rows.
pub proof fn lemma_ids_partition(rows: Seq<ListingRecord>)
    ensures
        ids_for(rows, PropertyType::Sale).len() + ids_for(rows, PropertyType::Rent).len() + ids_for(
            rows,
            PropertyType::SaleRent,
        ).len() + ids_for(rows, PropertyType::Error).len() == rows.len(),
    decreases rows.len(),
{
    if rows.len() > 0 {
        lemma_ids_partition(rows.drop_last());
    }
}

/// A category never holds more identifiers than there are rows.
pub proof fn lemma_ids_le(rows: Seq<ListingRecord>, t: PropertyType)
    ensures
        ids_for(rows, t).len() <= rows.len(),
    decreases rows.len(),
{
    if rows.len() > 0 {
        lemma_ids_le(rows.drop_last(), t);
    }
}

/// A status tally of one category counts at most every row and never a
/// negative number.
pub proof fn lemma_status_le_len(rows: Seq<ListingRecord>, t: PropertyType, label: Seq<char>)
    ensures
        0 <= status_count(rows, t, label) <= rows.len(),
    decreases rows.len(),
{
    if rows.len() > 0 {
        lemma_status_le_len(rows.drop_last(), t, label);
    }
}

/// Each row bumps the tally of the given label in at most one category,
/// so the four per-category tallies of one label never exceed the row
/// count together.
pub proof fn lemma_status_partition(rows: Seq<ListingRecord>, label: Seq<char>)
    ensures
        status_count(rows, PropertyType::Sale, label) + status_count(
            rows,
            PropertyType::Rent,
            label,
        ) + status_count(rows, PropertyType::SaleRent, label) + status_count(
            rows,
            PropertyType::Error,
            label,
        ) <= rows.len(),
    decreases rows.len(),
{
    if rows.len() > 0 {
        lemma_status_partition(rows.drop_last(), label);
    }
}

/// All seven status counters of an accumulator that matches its rows are
/// bounded by the row count.
proof fn lemma_counters_bounded(a: ParcialStats, rows: Seq<ListingRecord>, t: PropertyType)
    requires
        accumulated(a, rows, t),
    ensures
        a.total_ativo <= rows.len(),
        a.total_cancelado <= rows.len(),
        a.total_ficha <= rows.len(),
        a.total_locado <= rows.len(),
        a.total_provisorio <= rows.len(),
        a.total_suspenso <= rows.len(),
        a.total_vendido <= rows.len(),
{
    lemma_status_le_len(rows, t, "Ativo"@);
    lemma_status_le_len(rows, t, "Cancelado"@);
    lemma_status_le_len(rows, t, "Ficha"@);
    lemma_status_le_len(rows, t, "Locado"@);
    lemma_status_le_len(rows, t, "Provisório"@);
    lemma_status_le_len(rows, t, "Suspenso"@);
    lemma_status_le_len(rows, t, "Vendido"@);
}

/// A field sum over exactly four accumulators, written out.
proof fn lemma_sum_by_four(
    a: ParcialStats,
    b: ParcialStats,
    c: ParcialStats,
    d: ParcialStats,
    f: StatField,
)
    ensures
        sum_by(seq![a, b, c, d], f) == field_of(a, f) + field_of(b, f) + field_of(c, f) + field_of(
            d,
            f,
        ),
{
    let s: Seq<ParcialStats> = seq![a, b, c, d];
    assert(s.drop_last() =~= seq![a, b, c]);
    assert(seq![a, b, c].drop_last() =~= seq![a, b]);
    assert(seq![a, b].drop_last() =~= seq![a]);
    assert(seq![a].drop_last() =~= Seq::<ParcialStats>::empty());
    assert(sum_by(Seq::<ParcialStats>::empty(), f) == 0);
    assert(sum_by(seq![a], f) == field_of(a, f));
    assert(sum_by(seq![a, b], f) == field_of(a, f) + field_of(b, f));
    assert(sum_by(seq![a, b, c], f) == field_of(a, f) + field_of(b, f) + field_of(c, f));
}

/// Classifies every row, folds it into the accumulator of its category,
/// finalizes the four accumulators and merges them into the grand total.
pub fn aggregate_rows(rows: &Vec<ListingRecord>) -> (rep: StatsReport)
    requires
        rows@.len() <= u32::MAX,
    ensures
        report_ok(rep, rows@),
{
    let mut sale = ParcialStats::new("sale");
    let mut rent = ParcialStats::new("rent");
    let mut sale_rent = ParcialStats::new("rent-sale");
    let mut error = ParcialStats::new("error");
    let mut i: usize = 0;
    proof {
        assert(rows@.take(0) =~= Seq::<ListingRecord>::empty());
    }
    while i < rows.len()
        invariant
            i <= rows@.len(),
            rows@.len() <= u32::MAX,
            accumulated(sale, rows@.take(i as int), PropertyType::Sale),
            accumulated(rent, rows@.take(i as int), PropertyType::Rent),
            accumulated(sale_rent, rows@.take(i as int), PropertyType::SaleRent),
            accumulated(error, rows@.take(i as int), PropertyType::Error),
            sale.name@ == "sale"@,
            rent.name@ == "rent"@,
            sale_rent.name@ == "rent-sale"@,
            error.name@ == "error"@,
        decreases rows@.len() - i,
    {
        let r = &rows[i];
        let ghost t0 = rows@.take(i as int);
        let ghost t1 = rows@.take(i as int + 1);
        proof {
            assert(t1.drop_last() =~= t0);
            assert(t1.last() == rows@[i as int]);
            lemma_counters_bounded(sale, t0, PropertyType::Sale);
            lemma_counters_bounded(rent, t0, PropertyType::Rent);
            lemma_counters_bounded(sale_rent, t0, PropertyType::SaleRent);
            lemma_counters_bounded(error, t0, PropertyType::Error);
        }
        let id = r.id;
        let status = r.status.clone();
        let t = property_type(r.sale_positive, r.rent_positive);
        match t {
            PropertyType::Rent => {
                rent.add_id(id);
                rent.add_status_computation(status);
            },
            PropertyType::Sale => {
                sale.add_id(id);
                sale.add_status_computation(status);
            },
            PropertyType::Error => {
                error.add_id(id);
                error.add_status_computation(status);
            },
            PropertyType::SaleRent => {
                sale_rent.add_id(id);
                sale_rent.add_status_computation(status);
            },
        }
        proof {
            assert forall|c: PropertyType, x: u32| (ids_for(t0, c).push(x) =~= ids_for(t0, c)
                + seq![x]) by {}
            assert(ids_for(t0, PropertyType::Sale) + Seq::<u32>::empty() =~= ids_for(
                t0,
                PropertyType::Sale,
            ));
            assert(ids_for(t0, PropertyType::Rent) + Seq::<u32>::empty() =~= ids_for(
                t0,
                PropertyType::Rent,
            ));
            assert(ids_for(t0, PropertyType::SaleRent) + Seq::<u32>::empty() =~= ids_for(
                t0,
                PropertyType::SaleRent,
            ));
            assert(ids_for(t0, PropertyType::Error) + Seq::<u32>::empty() =~= ids_for(
                t0,
                PropertyType::Error,
            ));
            assert(accumulated(sale, t1, PropertyType::Sale));
            assert(accumulated(rent, t1, PropertyType::Rent));
            assert(accumulated(sale_rent, t1, PropertyType::SaleRent));
            assert(accumulated(error, t1, PropertyType::Error));
        }
        i = i + 1;
    }
    proof {
        assert(rows@.take(rows@.len() as int) =~= rows@);
        lemma_ids_le(rows@, PropertyType::Sale);
        lemma_ids_le(rows@, PropertyType::Rent);
        lemma_ids_le(rows@, PropertyType::SaleRent);
        lemma_ids_le(rows@, PropertyType::Error);
    }
    sale.compute_data();
    rent.compute_data();
    sale_rent.compute_data();
    error.compute_data();
    let ghost parts = seq![sale, rent, sale_rent, error];
    proof {
        lemma_ids_partition(rows@);
        lemma_unique_count_le(sale.ids@);
        lemma_unique_count_le(rent.ids@);
        lemma_unique_count_le(sale_rent.ids@);
        lemma_unique_count_le(error.ids@);
        assert forall|f: StatField| #[trigger] sum_by(parts, f) <= u32::MAX by {
            lemma_sum_by_four(sale, rent, sale_rent, error, f);
            match f {
                StatField::Raw => {},
                StatField::Unique => {},
                StatField::Duplicates => {},
                StatField::Ativo => {
                    lemma_status_partition(rows@, "Ativo"@);
                },
                StatField::Cancelado => {
                    lemma_status_partition(rows@, "Cancelado"@);
                },
                StatField::Ficha => {
                    lemma_status_partition(rows@, "Ficha"@);
                },
                StatField::Locado => {
                    lemma_status_partition(rows@, "Locado"@);
                },
                StatField::Provisorio => {
                    lemma_status_partition(rows@, "Provisório"@);
                },
                StatField::Suspenso => {
                    lemma_status_partition(rows@, "Suspenso"@);
                },
                StatField::Vendido => {
                    lemma_status_partition(rows@, "Vendido"@);
                },
            }
        }
    }
    let refs: Vec<&ParcialStats> = vec![&sale, &rent, &sale_rent, &error];
    proof {
        assert(stats_seq(refs@) =~= parts);
        assert(sums_fit(stats_seq(refs@)));
    }
    let total = sum_stats(&refs);
    StatsReport { sale, rent, sale_rent, error, total }
}

} // verus!
