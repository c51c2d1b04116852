use property_stats::ParcialStats;
use property_stats::PropertyType;
use property_stats::property_type;

#[test]
fn classify_zero_prices_is_error() {
    let sale: f64 = 0.0;
    let rent: f64 = 0.0;
    assert_eq!(property_type(sale > 0.0, rent > 0.0), PropertyType::Error);
}

#[test]
fn classify_negative_sale_positive_rent_is_rent() {
    let sale: f64 = -5.0;
    let rent: f64 = 10.0;
    assert_eq!(property_type(sale > 0.0, rent > 0.0), PropertyType::Rent);
}

#[test]
fn classify_positive_sale_only_is_sale() {
    let sale: f64 = 100.0;
    let rent: f64 = 0.0;
    assert_eq!(property_type(sale > 0.0, rent > 0.0), PropertyType::Sale);
}

#[test]
fn classify_both_positive_is_sale_rent() {
    let sale: f64 = 100.0;
    let rent: f64 = 50.0;
    assert_eq!(property_type(sale > 0.0, rent > 0.0), PropertyType::SaleRent);
}

#[test]
fn classify_negative_rent_is_error() {
    let sale: f64 = -1.0;
    let rent: f64 = -1.0;
    assert_eq!(property_type(sale > 0.0, rent > 0.0), PropertyType::Error);
}

#[test]
fn duplicates_are_counted_at_finalization() {
    let mut s = ParcialStats::new("sale");
    s.add_id(1);
    s.add_id(2);
    s.add_id(2);
    s.add_id(3);
    s.compute_data();
    assert_eq!(s.total_raw, 4);
    assert_eq!(s.total_unique, 3);
    assert_eq!(s.total_duplicates, 1);
}

#[test]
fn totals_balance_after_finalization() {
    let mut s = ParcialStats::new("rent");
    for id in [7, 7, 7, 8, 9, 9, 10] {
        s.add_id(id);
    }
    s.compute_data();
    assert_eq!(s.total_raw, s.total_unique + s.total_duplicates);
}

#[test]
fn finalization_is_idempotent() {
    let mut s = ParcialStats::new("sale");
    s.add_id(5);
    s.add_id(5);
    s.add_id(6);
    s.compute_data();
    let raw = s.total_raw;
    let unique = s.total_unique;
    let duplicates = s.total_duplicates;
    s.compute_data();
    assert_eq!(s.total_raw, raw);
    assert_eq!(s.total_unique, unique);
    assert_eq!(s.total_duplicates, duplicates);
}

#[test]
fn empty_accumulator_finalizes_to_zero() {
    let mut s = ParcialStats::new("error");
    s.compute_data();
    assert_eq!(s.total_raw, 0);
    assert_eq!(s.total_unique, 0);
    assert_eq!(s.total_duplicates, 0);
}

#[test]
fn recognized_labels_increment_their_counter() {
    let mut s = ParcialStats::new("sale");
    s.add_status_computation("Ativo".to_string());
    s.add_status_computation("Ativo".to_string());
    s.add_status_computation("Cancelado".to_string());
    s.add_status_computation("Ficha".to_string());
    s.add_status_computation("Locado".to_string());
    s.add_status_computation("Provisório".to_string());
    s.add_status_computation("Suspenso".to_string());
    s.add_status_computation("Vendido".to_string());
    assert_eq!(s.total_ativo, 2);
    assert_eq!(s.total_cancelado, 1);
    assert_eq!(s.total_ficha, 1);
    assert_eq!(s.total_locado, 1);
    assert_eq!(s.total_provisorio, 1);
    assert_eq!(s.total_suspenso, 1);
    assert_eq!(s.total_vendido, 1);
}

#[test]
fn unrecognized_labels_change_nothing() {
    let mut s = ParcialStats::new("sale");
    s.add_id(1);
    s.compute_data();
    let before_raw = s.total_raw;
    let before_unique = s.total_unique;
    let before_duplicates = s.total_duplicates;
    s.add_status_computation("n/a".to_string());
    s.add_status_computation("ativo".to_string());
    s.add_status_computation("Sold".to_string());
    s.add_status_computation(String::new());
    assert_eq!(s.total_ativo, 0);
    assert_eq!(s.total_cancelado, 0);
    assert_eq!(s.total_ficha, 0);
    assert_eq!(s.total_locado, 0);
    assert_eq!(s.total_provisorio, 0);
    assert_eq!(s.total_suspenso, 0);
    assert_eq!(s.total_vendido, 0);
    assert_eq!(s.total_raw, before_raw);
    assert_eq!(s.total_unique, before_unique);
    assert_eq!(s.total_duplicates, before_duplicates);
}
