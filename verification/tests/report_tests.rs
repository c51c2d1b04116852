use property_stats::ListingRecord;
use property_stats::render::short_output_line;
use property_stats::render::u32_to_string;
use property_stats::report::aggregate_rows;

fn record(id: u32, sale: f64, rent: f64, status: &str) -> ListingRecord {
    ListingRecord {
        id,
        sale_positive: sale > 0.0,
        rent_positive: rent > 0.0,
        status: status.to_string(),
    }
}

#[test]
fn one_row_per_category() {
    let rows = vec![
        record(1, 100.0, 0.0, "Vendido"),
        record(2, 0.0, 50.0, "Ativo"),
        record(3, 100.0, 50.0, "Ativo"),
        record(4, 0.0, 0.0, "n/a"),
    ];
    let rep = aggregate_rows(&rows);

    assert_eq!(rep.sale.ids, vec![1]);
    assert_eq!(rep.sale.total_raw, 1);
    assert_eq!(rep.sale.total_vendido, 1);
    assert_eq!(rep.sale.name, "sale");

    assert_eq!(rep.rent.ids, vec![2]);
    assert_eq!(rep.rent.total_raw, 1);
    assert_eq!(rep.rent.total_ativo, 1);
    assert_eq!(rep.rent.name, "rent");

    assert_eq!(rep.sale_rent.ids, vec![3]);
    assert_eq!(rep.sale_rent.total_raw, 1);
    assert_eq!(rep.sale_rent.total_ativo, 1);
    assert_eq!(rep.sale_rent.name, "rent-sale");

    assert_eq!(rep.error.ids, vec![4]);
    assert_eq!(rep.error.total_raw, 1);
    assert_eq!(rep.error.name, "error");

    assert_eq!(rep.total.total_raw, 4);
    assert_eq!(rep.total.total_unique, 4);
    assert_eq!(rep.total.total_duplicates, 0);
    assert_eq!(rep.total.total_ativo, 2);
    assert_eq!(rep.total.total_vendido, 1);
    assert_eq!(rep.total.name, "sale_rent_rent-sale_error");
    assert_eq!(rep.total.ids, vec![1, 2, 3, 4]);
}

#[test]
fn condensed_line_of_the_four_row_scenario() {
    let rows = vec![
        record(1, 100.0, 0.0, "Vendido"),
        record(2, 0.0, 50.0, "Ativo"),
        record(3, 100.0, 50.0, "Ativo"),
        record(4, 0.0, 0.0, "n/a"),
    ];
    let rep = aggregate_rows(&rows);
    let line = short_output_line(&rep);
    assert_eq!(line, "1\t1\t1\t1\t0\t\t2");
}

#[test]
fn duplicates_within_a_category_reach_the_merged_total() {
    let rows = vec![
        record(10, 1.0, 0.0, "Ativo"),
        record(10, 2.0, 0.0, "Ativo"),
        record(11, 0.0, 3.0, "Locado"),
    ];
    let rep = aggregate_rows(&rows);
    assert_eq!(rep.sale.total_raw, 2);
    assert_eq!(rep.sale.total_unique, 1);
    assert_eq!(rep.sale.total_duplicates, 1);
    assert_eq!(rep.total.total_raw, 3);
    assert_eq!(rep.total.total_duplicates, 1);
    assert_eq!(rep.rent.total_locado, 1);
}

#[test]
fn duplicates_across_categories_are_not_recombined() {
    let rows = vec![record(7, 1.0, 0.0, "n/a"), record(7, 0.0, 1.0, "n/a")];
    let rep = aggregate_rows(&rows);
    assert_eq!(rep.total.total_raw, 2);
    assert_eq!(rep.total.total_unique, 2);
    assert_eq!(rep.total.total_duplicates, 0);
    assert_eq!(rep.total.ids, vec![7, 7]);
}

#[test]
fn aggregate_of_no_rows_is_all_zero() {
    let rows: Vec<ListingRecord> = vec![];
    let rep = aggregate_rows(&rows);
    assert_eq!(rep.sale.total_raw, 0);
    assert_eq!(rep.rent.total_raw, 0);
    assert_eq!(rep.sale_rent.total_raw, 0);
    assert_eq!(rep.error.total_raw, 0);
    assert_eq!(rep.total.total_raw, 0);
    let line = short_output_line(&rep);
    assert_eq!(line, "0\t0\t0\t0\t0\t\t0");
}

#[test]
fn decimal_rendering_is_exact() {
    assert_eq!(u32_to_string(0), "0");
    assert_eq!(u32_to_string(7), "7");
    assert_eq!(u32_to_string(10), "10");
    assert_eq!(u32_to_string(409), "409");
    assert_eq!(u32_to_string(u32::MAX), "4294967295");
}
