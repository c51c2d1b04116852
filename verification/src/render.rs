//! The condensed one-line summary: seven tab-separated fields in a fixed
//! order, with a verified decimal rendering of each count.
use vstd::prelude::*;
use vstd::string::StringExecFns;
use crate::report::StatsReport;

verus! {

/// The decimal digit character of one digit value.
pub open spec fn digit_char(d: int) -> char {
    if d == 0 {
        '0'
    } else if d == 1 {
        '1'
    } else if d == 2 {
        '2'
    } else if d == 3 {
        '3'
    } else if d == 4 {
        '4'
    } else if d == 5 {
        '5'
    } else if d == 6 {
        '6'
    } else if d == 7 {
        '7'
    } else if d == 8 {
        '8'
    } else {
        '9'
    }
}

/// The decimal rendering of a number, most significant digit first, with
/// no leading zeros except for the number zero itself.
pub open spec fn dec_seq(n: nat) -> Seq<char>
    decreases n,
{
    if n < 10 {
        seq![digit_char(n as int)]
    } else {
        dec_seq(n / 10).push(digit_char((n % 10) as int))
    }
}

/// A single tab, the field separator of the condensed line.
pub open spec fn tab() -> Seq<char> {
    seq!['\t']
}

/// The condensed line: raw sale count, raw rent count, raw unclassified
/// count, raw sale-and-rent count, merged duplicate count, an empty
/// placeholder field, and the merged active-status count, tab-separated.
pub open spec fn short_line_spec(
    sale_raw: u32,
    rent_raw: u32,
    error_raw: u32,
    sale_rent_raw: u32,
    duplicates: u32,
    ativo: u32,
) -> Seq<char> {
    dec_seq(sale_raw as nat) + tab() + dec_seq(rent_raw as nat) + tab() + dec_seq(error_raw as nat)
        + tab() + dec_seq(sale_rent_raw as nat) + tab() + dec_seq(duplicates as nat) + tab() + tab()
        + dec_seq(ativo as nat)
}

fn digit_str(d: u32) -> (s: &'static str)
    requires
        d < 10,
    ensures
        s@ == seq![digit_char(d as int)],
{
    proof {
        reveal_strlit("0");
        reveal_strlit("1");
        reveal_strlit("2");
        reveal_strlit("3");
        reveal_strlit("4");
        reveal_strlit("5");
        reveal_strlit("6");
        reveal_strlit("7");
        reveal_strlit("8");
        reveal_strlit("9");
    }
    if d == 0 {
        let s = "0";
        proof {
            assert(s@ =~= seq![digit_char(0)]);
        }
        s
    } else if d == 1 {
        let s = "1";
        proof {
            assert(s@ =~= seq![digit_char(1)]);
        }
        s
    } else if d == 2 {
        let s = "2";
        proof {
            assert(s@ =~= seq![digit_char(2)]);
        }
        s
    } else if d == 3 {
        let s = "3";
        proof {
            assert(s@ =~= seq![digit_char(3)]);
        }
        s
    } else if d == 4 {
        let s = "4";
        proof {
            assert(s@ =~= seq![digit_char(4)]);
        }
        s
    } else if d == 5 {
        let s = "5";
        proof {
            assert(s@ =~= seq![digit_char(5)]);
        }
        s
    } else if d == 6 {
        let s = "6";
        proof {
            assert(s@ =~= seq![digit_char(6)]);
        }
        s
    } else if d == 7 {
        let s = "7";
        proof {
            assert(s@ =~= seq![digit_char(7)]);
        }
        s
    } else if d == 8 {
        let s = "8";
        proof {
            assert(s@ =~= seq![digit_char(8)]);
        }
        s
    } else {
        let s = "9";
        proof {
            assert(s@ =~= seq![digit_char(9)]);
        }
        s
    }
}

/// Renders a count in decimal.
pub fn u32_to_string(n: u32) -> (s: String)
    ensures
        s@ == dec_seq(n as nat),
    decreases n,
{
    if n < 10 {
        digit_str(n).to_owned()
    } else {
        let mut s = u32_to_string(n / 10);
        s.append(digit_str(n % 10));
        proof {
            assert(dec_seq((n / 10) as nat) + seq![digit_char((n % 10) as int)] =~= dec_seq(
                (n / 10) as nat,
            ).push(digit_char((n % 10) as int)));
        }
        s
    }
}

/// Renders the condensed seven-field summary line of a finished report.
pub fn short_output_line(rep: &StatsReport) -> (line: String)
    ensures
        line@ == short_line_spec(
            rep.sale.total_raw,
            rep.rent.total_raw,
            rep.error.total_raw,
            rep.sale_rent.total_raw,
            rep.total.total_duplicates,
            rep.total.total_ativo,
        ),
{
    proof {
        reveal_strlit("\t");
        assert("\t"@ =~= tab());
    }
    let mut line = u32_to_string(rep.sale.total_raw);
    line.append("\t");
    let part_rent = u32_to_string(rep.rent.total_raw);
    line.append(part_rent.as_str());
    line.append("\t");
    let part_error = u32_to_string(rep.error.total_raw);
    line.append(part_error.as_str());
    line.append("\t");
    let part_sale_rent = u32_to_string(rep.sale_rent.total_raw);
    line.append(part_sale_rent.as_str());
    line.append("\t");
    let part_duplicates = u32_to_string(rep.total.total_duplicates);
    line.append(part_duplicates.as_str());
    line.append("\t");
    line.append("\t");
    let part_ativo = u32_to_string(rep.total.total_ativo);
    line.append(part_ativo.as_str());
    line
}

} // verus!
