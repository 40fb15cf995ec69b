use huangji_core::period::get_hj_info;
use huangji_core::year_axis::{acc_to_year, year_to_acc, ACC_BC1};

#[test]
fn test_year_acc_roundtrip() {
    let years = [-3000, -2, -1, 1, 2, 2024, 2044];
    for &y in &years {
        let acc = year_to_acc(y).unwrap();
        let y2 = acc_to_year(acc);
        assert_eq!(y, y2, "year {} -> acc {} -> year {}", y, acc, y2);
    }
}

#[test]
fn test_no_year_zero() {
    let acc_bc1 = year_to_acc(-1).unwrap();
    let acc_ad1 = year_to_acc(1).unwrap();
    assert_eq!(acc_ad1 - acc_bc1, 1, "1 BC and 1 AD should be consecutive");
}

#[test]
fn test_year_zero_returns_error() {
    let result = year_to_acc(0);
    assert!(result.is_err(), "year_to_acc(0) should return Err");
    assert_eq!(result.unwrap_err(), "公元0年不存在");
}

#[test]
fn test_bce_continuity() {
    let _info_bc2 = get_hj_info(-2);
    let _info_bc1 = get_hj_info(-1);
    let _info_ad1 = get_hj_info(1);

    let acc_bc2 = year_to_acc(-2).unwrap();
    let acc_bc1 = year_to_acc(-1).unwrap();
    let acc_ad1 = year_to_acc(1).unwrap();

    assert_eq!(acc_bc1 - acc_bc2, 1);
    assert_eq!(acc_ad1 - acc_bc1, 1);
}

#[test]
fn test_year_acc_golden_cases() {
    assert_eq!(year_to_acc(-1).unwrap(), 67017, "1 BC should map to acc=67017");
    assert_eq!(year_to_acc(1).unwrap(), 67018, "1 AD should map to acc=67018");

    assert_eq!(acc_to_year(67017), -1, "acc=67017 should map to 1 BC");
    assert_eq!(acc_to_year(67018), 1, "acc=67018 should map to 1 AD");

    assert_eq!(
        year_to_acc(1).unwrap() - year_to_acc(-1).unwrap(),
        1,
        "acc(1 AD) - acc(1 BC) should be 1"
    );
}

#[test]
fn year_acc_roundtrip_over_a_wide_range() {
    for year in -10000i32..10000i32 {
        if year == 0 {
            continue;
        }
        let acc = year_to_acc(year).expect("a nonzero year has an accumulated year");
        assert_eq!(acc_to_year(acc), year);
    }
}

#[test]
fn acc_roundtrip_never_gives_year_zero() {
    for acc in (ACC_BC1 - 500)..(ACC_BC1 + 500) {
        let year = acc_to_year(acc);
        assert_ne!(year, 0);
        assert_eq!(year_to_acc(year).unwrap(), acc);
    }
}

#[test]
fn accumulated_years_of_the_epoch() {
    assert_eq!(year_to_acc(-67017).unwrap(), 1);
    assert_eq!(acc_to_year(1), -67017);
    assert_eq!(year_to_acc(2024).unwrap(), 69041);
    assert_eq!(acc_to_year(0), -67018);
}
