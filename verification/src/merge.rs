//! The merge of finalized accumulators into one grand total: identifier
//! sequences and names are concatenated in input order, every numeric
//! total is summed.
use vstd::prelude::*;
use vstd::string::StringExecFns;
use crate::stats::ParcialStats;

verus! {

/// One of the ten numeric totals carried by an accumulator.
#[derive(Clone, Copy, PartialEq, Eq, Structural, Debug)]
pub enum StatField {
    Raw,
    Unique,
    Duplicates,
    Ativo,
    Cancelado,
    Ficha,
    Locado,
    Provisorio,
    Suspenso,
    Vendido,
}

/// The value an accumulator carries in the given numeric field.
pub open spec fn field_of(p: ParcialStats, f: StatField) -> u32 {
    match f {
        StatField::Raw => p.total_raw,
        StatField::Unique => p.total_unique,
        StatField::Duplicates => p.total_duplicates,
        StatField::Ativo => p.total_ativo,
        StatField::Cancelado => p.total_cancelado,
        StatField::Ficha => p.total_ficha,
        StatField::Locado => p.total_locado,
        StatField::Provisorio => p.total_provisorio,
        StatField::Suspenso => p.total_suspenso,
        StatField::Vendido => p.total_vendido,
    }
}

/// The sum of one numeric field over a sequence of accumulators.
pub open spec fn sum_by(s: Seq<ParcialStats>, f: StatField) -> int
    decreases s.len(),
{
    if s.len() == 0 {
        0
    } else {
        sum_by(s.drop_last(), f) + field_of(s.last(), f)
    }
}

/// The concatenation, in input order, of the identifier sequences of a
/// sequence of accumulators.
pub open spec fn concat_ids(s: Seq<ParcialStats>) -> Seq<u32>
    decreases s.len(),
{
    if s.len() == 0 {
        Seq::empty()
    } else {
        concat_ids(s.drop_last()) + s.last().ids@
    }
}

/// One step of name joining: the first name stands alone, every later one
/// is appended behind an underscore.
pub open spec fn join_step(acc: Seq<char>, name: Seq<char>) -> Seq<char> {
    if acc.len() == 0 {
        name
    } else {
        acc + "_"@ + name
    }
}

/// The names of a sequence of accumulators joined in input order.
pub open spec fn join_names(s: Seq<ParcialStats>) -> Seq<char>
    decreases s.len(),
{
    if s.len() == 0 {
        Seq::empty()
    } else {
        join_step(join_names(s.drop_last()), s.last().name@)
    }
}

/// The accumulators behind a sequence of references.
pub open spec fn stats_seq(items: Seq<&ParcialStats>) -> Seq<ParcialStats> {
    items.map_values(|p: &ParcialStats| *p)
}

/// Every numeric field sum over the given parts fits in a counter.
pub open spec fn sums_fit(parts: Seq<ParcialStats>) -> bool {
    forall|f: StatField| #[trigger] sum_by(parts, f) <= u32::MAX
}

/// The total is the merge of the parts: identifiers and names
/// concatenated in input order, every numeric field summed.
pub open spec fn merged_from(total: ParcialStats, parts: Seq<ParcialStats>) -> bool {
    &&& total.ids@ == concat_ids(parts)
    &&& total.name@ == join_names(parts)
    &&& forall|f: StatField| field_of(total, f) as int == #[trigger] sum_by(parts, f)
}

/// A field sum grows by the last element's field.
proof fn lemma_sum_by_push(s: Seq<ParcialStats>, x: ParcialStats, f: StatField)
    ensures
        sum_by(s.push(x), f) == sum_by(s, f) + field_of(x, f),
{
    assert(s.push(x).drop_last() =~= s);
}

/// A field sum is never negative.
proof fn lemma_sum_by_nonneg(s: Seq<ParcialStats>, f: StatField)
    ensures
        0 <= sum_by(s, f),
    decreases s.len(),
{
    if s.len() > 0 {
        lemma_sum_by_nonneg(s.drop_last(), f);
    }
}

/// A field sum over a prefix never exceeds the sum over the whole.
proof fn lemma_sum_by_take_le(s: Seq<ParcialStats>, f: StatField, i: int)
    requires
        0 <= i <= s.len(),
    ensures
        sum_by(s.take(i), f) <= sum_by(s, f),
    decreases s.len(),
{
    if i == s.len() {
        assert(s.take(i) =~= s);
    } else {
        assert(s.drop_last().take(i) =~= s.take(i));
        lemma_sum_by_take_le(s.drop_last(), f, i);
    }
}

/// Law: merging is associative on the numeric totals. Summing a field
/// over a concatenation of two part lists gives the sum over the first
/// plus the sum over the second, so merging merges of parts and merging
/// all parts at once agree on every numeric total.
pub proof fn lemma_sum_by_concat(s: Seq<ParcialStats>, t: Seq<ParcialStats>, f: StatField)
    ensures
        sum_by(s + t, f) == sum_by(s, f) + sum_by(t, f),
    decreases t.len(),
{
    if t.len() == 0 {
        assert(s + t =~= s);
    } else {
        assert((s + t).drop_last() =~= s + t.drop_last());
        assert((s + t).last() == t.last());
        lemma_sum_by_concat(s, t.drop_last(), f);
    }
}

/// Law: merging two merged totals gives the same numeric totals as
/// merging all their parts at once.
pub proof fn lemma_merge_of_merges(
    m1: ParcialStats,
    m2: ParcialStats,
    t: ParcialStats,
    xs: Seq<ParcialStats>,
    ys: Seq<ParcialStats>,
    f: StatField,
)
    requires
        merged_from(m1, xs),
        merged_from(m2, ys),
        merged_from(t, seq![m1, m2]),
    ensures
        field_of(t, f) as int == sum_by(xs + ys, f),
{
    assert(seq![m1, m2].drop_last() =~= seq![m1]);
    assert(seq![m1].drop_last() =~= Seq::<ParcialStats>::empty());
    assert(sum_by(Seq::<ParcialStats>::empty(), f) == 0);
    assert(sum_by(seq![m1], f) == field_of(m1, f));
    assert(sum_by(seq![m1, m2], f) == field_of(m1, f) + field_of(m2, f));
    lemma_sum_by_concat(xs, ys, f);
    assert(field_of(m1, f) as int == sum_by(xs, f));
    assert(field_of(m2, f) as int == sum_by(ys, f));
}

/// Removing one element takes exactly its field out of the sum.
proof fn lemma_sum_by_remove(s: Seq<ParcialStats>, i: int, f: StatField)
    requires
        0 <= i < s.len(),
    ensures
        sum_by(s.remove(i), f) == sum_by(s, f) - field_of(s[i], f),
    decreases s.len(),
{
    if i == s.len() - 1 {
        assert(s.remove(i) =~= s.drop_last());
    } else {
        assert(s.remove(i).drop_last() =~= s.drop_last().remove(i));
        assert(s.remove(i).last() == s.last());
        lemma_sum_by_remove(s.drop_last(), i, f);
    }
}

/// Law: merging is order-insensitive on the numeric totals. Two part
/// lists holding the same accumulators, in any order, have the same sum
/// in every numeric field; permuting the inputs of a merge changes only
/// the concatenation order of identifiers and names.
pub proof fn lemma_sum_by_permutation(s: Seq<ParcialStats>, t: Seq<ParcialStats>, f: StatField)
    requires
        s.to_multiset() == t.to_multiset(),
    ensures
        sum_by(s, f) == sum_by(t, f),
    decreases s.len(),
{
    broadcast use vstd::seq_lib::group_to_multiset_ensures;

    if s.len() == 0 {
        assert(t.to_multiset().len() == 0);
    } else {
        let x = s.last();
        assert(s =~= s.drop_last().push(x));
        assert(s.to_multiset() == s.drop_last().to_multiset().insert(x));
        assert(t.to_multiset().count(x) > 0);
        assert(t.contains(x));
        let j = choose|j: int| 0 <= j < t.len() && t[j] == x;
        assert(t.remove(j).to_multiset() == t.to_multiset().remove(x));
        assert(s.drop_last().to_multiset() =~= t.remove(j).to_multiset());
        lemma_sum_by_permutation(s.drop_last(), t.remove(j), f);
        lemma_sum_by_remove(t, j, f);
    }
}

/// Appends the source identifiers behind the destination ones.
fn append_ids(dst: &mut Vec<u32>, src: &Vec<u32>)
    ensures
        final(dst)@ == old(dst)@ + src@,
{
    let mut j: usize = 0;
    proof {
        assert(dst@ + src@.take(0) =~= dst@);
    }
    while j < src.len()
        invariant
            j <= src@.len(),
            dst@ == old(dst)@ + src@.take(j as int),
        decreases src@.len() - j,
    {
        dst.push(src[j]);
        proof {
            assert(old(dst)@ + src@.take(j as int + 1) =~= (old(dst)@ + src@.take(
                j as int,
            )).push(src@[j as int]));
        }
        j = j + 1;
    }
    proof {
        assert(src@.take(src@.len() as int) =~= src@);
    }
}

/// Merges finalized accumulators into one grand total: identifiers and
/// names are concatenated in input order, and each numeric total is the
/// sum of the inputs' totals. Global uniqueness is deliberately not
/// recomputed over the combined identifiers: the unique and duplicate
/// totals are sums of the already-finalized per-category totals.
pub fn sum_stats(items: &Vec<&ParcialStats>) -> (output: ParcialStats)
    requires
        sums_fit(stats_seq(items@)),
    ensures
        merged_from(output, stats_seq(items@)),
{
    let ghost parts = stats_seq(items@);
    let mut output = ParcialStats::default();
    let mut i: usize = 0;
    proof {
        assert(parts.take(0) =~= Seq::<ParcialStats>::empty());
    }
    while i < items.len()
        invariant
            i <= items@.len(),
            parts == stats_seq(items@),
            parts.len() == items@.len(),
            sums_fit(parts),
            output.ids@ == concat_ids(parts.take(i as int)),
            output.name@ == join_names(parts.take(i as int)),
            forall|f: StatField| field_of(output, f) as int == #[trigger] sum_by(
                parts.take(i as int),
                f,
            ),
        decreases items@.len() - i,
    {
        let item: &ParcialStats = items[i];
        let ghost t0 = parts.take(i as int);
        let ghost t1 = parts.take(i as int + 1);
        proof {
            assert(parts[i as int] == *item);
            assert(t1 =~= t0.push(*item));
            assert(t1.drop_last() =~= t0);
            assert(t1.last() == *item);
            assert forall|f: StatField| sum_by(t1, f) == sum_by(t0, f) + field_of(
                *item,
                f,
            ) by {
                lemma_sum_by_push(t0, *item, f);
            }
            assert forall|f: StatField| #[trigger] sum_by(t1, f) <= u32::MAX by {
                lemma_sum_by_take_le(parts, f, i as int + 1);
            }
            assert forall|f: StatField| 0 <= #[trigger] sum_by(t0, f) by {
                lemma_sum_by_nonneg(t0, f);
            }
            assert(field_of(output, StatField::Raw) as int + field_of(*item, StatField::Raw)
                == sum_by(t1, StatField::Raw));
            assert(field_of(output, StatField::Unique) as int + field_of(*item, StatField::Unique)
                == sum_by(t1, StatField::Unique));
            assert(field_of(output, StatField::Duplicates) as int + field_of(
                *item,
                StatField::Duplicates,
            ) == sum_by(t1, StatField::Duplicates));
            assert(field_of(output, StatField::Ativo) as int + field_of(*item, StatField::Ativo)
                == sum_by(t1, StatField::Ativo));
            assert(field_of(output, StatField::Cancelado) as int + field_of(
                *item,
                StatField::Cancelado,
            ) == sum_by(t1, StatField::Cancelado));
            assert(field_of(output, StatField::Ficha) as int + field_of(*item, StatField::Ficha)
                == sum_by(t1, StatField::Ficha));
            assert(field_of(output, StatField::Locado) as int + field_of(*item, StatField::Locado)
                == sum_by(t1, StatField::Locado));
            assert(field_of(output, StatField::Provisorio) as int + field_of(
                *item,
                StatField::Provisorio,
            ) == sum_by(t1, StatField::Provisorio));
            assert(field_of(output, StatField::Suspenso) as int + field_of(
                *item,
                StatField::Suspenso,
            ) == sum_by(t1, StatField::Suspenso));
            assert(field_of(output, StatField::Vendido) as int + field_of(
                *item,
                StatField::Vendido,
            ) == sum_by(t1, StatField::Vendido));
        }
        append_ids(&mut output.ids, &item.ids);
        if output.name.as_str().is_empty() {
            output.name = item.name.clone();
        } else {
            output.name.append("_");
            output.name.append(item.name.as_str());
        }
        proof {
            assert(output.name@ == join_step(join_names(t0), item.name@));
        }
        output.total_raw = output.total_raw + item.total_raw;
        output.total_unique = output.total_unique + item.total_unique;
        output.total_duplicates = output.total_duplicates + item.total_duplicates;
        output.total_ativo = output.total_ativo + item.total_ativo;
        output.total_cancelado = output.total_cancelado + item.total_cancelado;
        output.total_ficha = output.total_ficha + item.total_ficha;
        output.total_locado = output.total_locado + item.total_locado;
        output.total_provisorio = output.total_provisorio + item.total_provisorio;
        output.total_suspenso = output.total_suspenso + item.total_suspenso;
        output.total_vendido = output.total_vendido + item.total_vendido;
        i = i + 1;
    }
    proof {
        assert(parts.take(parts.len() as int) =~= parts);
    }
    output
}

} // verus!
