//! The record classifier: two price fields determine one of four
//! commercial categories.
use vstd::prelude::*;

verus! {

/// The four commercial categories of a listing. `Error` stands for a
/// record that is neither for sale nor for rent.
#[derive(Clone, Copy, PartialEq, Eq, Structural, Debug)]
pub enum PropertyType {
    Sale,
    Rent,
    SaleRent,
    Error,
}

/// What `property_type` returns: the priority rules over the signs of the
/// two prices. A price counts as present exactly when it is positive;
/// zero, absent and negative prices are alike absent.
pub open spec fn classify(sale_positive: bool, rent_positive: bool) -> PropertyType {
    if !sale_positive && rent_positive {
        PropertyType::Rent
    } else if sale_positive && !rent_positive {
        PropertyType::Sale
    } else if sale_positive && rent_positive {
        PropertyType::SaleRent
    } else {
        PropertyType::Error
    }
}

/// Classifies one record from the signs of its sale and rent prices
/// (`true` means the price is strictly positive).
pub fn property_type(sale_positive: bool, rent_positive: bool) -> (t: PropertyType)
    ensures
        t == classify(sale_positive, rent_positive),
{
    if !sale_positive && rent_positive {
        return PropertyType::Rent;
    }
    if sale_positive && !rent_positive {
        return PropertyType::Sale;
    }
    if sale_positive && rent_positive {
        return PropertyType::SaleRent;
    }
    PropertyType::Error
}

/// Law: classification is total and lands in exactly one category; each
/// category is returned if and only if its priority rule fires.
pub proof fn lemma_classify_total(sale_positive: bool, rent_positive: bool)
    ensures
        classify(sale_positive, rent_positive) == PropertyType::Rent <==> (!sale_positive
            && rent_positive),
        classify(sale_positive, rent_positive) == PropertyType::Sale <==> (sale_positive
            && !rent_positive),
        classify(sale_positive, rent_positive) == PropertyType::SaleRent <==> (sale_positive
            && rent_positive),
        classify(sale_positive, rent_positive) == PropertyType::Error <==> (!sale_positive
            && !rent_positive),
{
}

} // verus!
