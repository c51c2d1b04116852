use property_stats::ParcialStats;
use property_stats::merge::sum_stats;

fn finalized(name: &str, ids: &[u32], ativo: u32, vendido: u32) -> ParcialStats {
    let mut s = ParcialStats::new(name);
    for id in ids {
        s.add_id(*id);
    }
    for _ in 0..ativo {
        s.add_status_computation("Ativo".to_string());
    }
    for _ in 0..vendido {
        s.add_status_computation("Vendido".to_string());
    }
    s.compute_data();
    s
}

#[test]
fn merge_sums_totals_and_concatenates() {
    let a = finalized("sale", &[1, 2, 2], 1, 1);
    let b = finalized("rent", &[3, 2], 2, 0);
    let items: Vec<&ParcialStats> = vec![&a, &b];
    let total = sum_stats(&items);
    assert_eq!(total.name, "sale_rent");
    assert_eq!(total.ids, vec![1, 2, 2, 3, 2]);
    assert_eq!(total.total_raw, 5);
    assert_eq!(total.total_unique, 4);
    assert_eq!(total.total_duplicates, 1);
    assert_eq!(total.total_ativo, 3);
    assert_eq!(total.total_vendido, 1);
}

#[test]
fn merge_of_nothing_is_empty() {
    let items: Vec<&ParcialStats> = vec![];
    let total = sum_stats(&items);
    assert_eq!(total.name, "");
    assert!(total.ids.is_empty());
    assert_eq!(total.total_raw, 0);
}

#[test]
fn merge_is_order_insensitive_on_numeric_totals() {
    let a = finalized("sale", &[1, 1, 2], 2, 0);
    let b = finalized("rent", &[9], 0, 1);
    let c = finalized("error", &[5, 6], 1, 1);
    let forward: Vec<&ParcialStats> = vec![&a, &b, &c];
    let backward: Vec<&ParcialStats> = vec![&c, &b, &a];
    let t1 = sum_stats(&forward);
    let t2 = sum_stats(&backward);
    assert_eq!(t1.total_raw, t2.total_raw);
    assert_eq!(t1.total_unique, t2.total_unique);
    assert_eq!(t1.total_duplicates, t2.total_duplicates);
    assert_eq!(t1.total_ativo, t2.total_ativo);
    assert_eq!(t1.total_vendido, t2.total_vendido);
    assert_ne!(t1.name, t2.name);
    assert_eq!(t1.name, "sale_rent_error");
    assert_eq!(t2.name, "error_rent_sale");
}

#[test]
fn merge_is_associative_on_numeric_totals() {
    let a = finalized("sale", &[1], 1, 0);
    let b = finalized("rent", &[2, 2], 0, 1);
    let c = finalized("error", &[3], 1, 1);
    let all: Vec<&ParcialStats> = vec![&a, &b, &c];
    let left: Vec<&ParcialStats> = vec![&a, &b];
    let t_left = sum_stats(&left);
    let pair: Vec<&ParcialStats> = vec![&t_left, &c];
    let t_nested = sum_stats(&pair);
    let t_flat = sum_stats(&all);
    assert_eq!(t_nested.total_raw, t_flat.total_raw);
    assert_eq!(t_nested.total_unique, t_flat.total_unique);
    assert_eq!(t_nested.total_duplicates, t_flat.total_duplicates);
    assert_eq!(t_nested.total_ativo, t_flat.total_ativo);
    assert_eq!(t_nested.total_vendido, t_flat.total_vendido);
    assert_eq!(t_nested.ids, t_flat.ids);
}
