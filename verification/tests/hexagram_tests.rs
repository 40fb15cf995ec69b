use huangji_core::hexagram::{
    get_hexagram_name, get_hexagram_struct, get_trigram_name, Hexagram,
};
use huangji_core::sequence::{
    fuxi_position, get_year_gua_seq, get_zheng_gua_seq, is_skipped_name, FUXI_SEQ,
};

#[test]
fn test_hexagram_bijection() {
    let samples = [
        (7, 7, "乾"),
        (0, 0, "坤"),
        (7, 0, "否"),
        (0, 7, "泰"),
        (2, 2, "坎"),
        (5, 5, "离"),
    ];
    for (u, l, name) in samples {
        assert_eq!(get_hexagram_name(u, l), name, "({},{}) should be {}", u, l, name);
        let (u2, l2) = get_hexagram_struct(name);
        assert_eq!((u, l), (u2, l2), "{} should map to ({},{})", name, u, l);
    }
}

#[test]
fn test_hexagram_pi_tai() {
    assert_eq!(get_hexagram_name(7, 7), "乾", "(7,7) should be 乾");
    assert_eq!(get_hexagram_struct("乾"), (7, 7), "乾 should map to (7,7)");

    assert_eq!(get_hexagram_name(0, 0), "坤", "(0,0) should be 坤");
    assert_eq!(get_hexagram_struct("坤"), (0, 0), "坤 should map to (0,0)");

    assert_eq!(get_hexagram_name(7, 0), "否", "(7,0) should be 否 (天地否)");
    assert_eq!(get_hexagram_struct("否"), (7, 0), "否 should map to (7,0)");

    assert_eq!(get_hexagram_name(0, 7), "泰", "(0,7) should be 泰 (地天泰)");
    assert_eq!(get_hexagram_struct("泰"), (0, 7), "泰 should map to (0,7)");
}

#[test]
fn test_all_hexagram_names_roundtrip() {
    let skip = ["乾", "坤", "坎", "离"];

    for &name in FUXI_SEQ.iter() {
        if skip.contains(&name) {
            continue;
        }
        let (u, l) = get_hexagram_struct(name);
        let name2 = get_hexagram_name(u, l);
        assert_eq!(
            name, name2,
            "Hexagram name roundtrip failed: {} -> ({},{}) -> {}",
            name, u, l, name2
        );
    }
}

#[test]
fn hexagram_bijection_over_all_pairs() {
    let mut seen: Vec<String> = Vec::new();
    for upper in 0u8..8u8 {
        for lower in 0u8..8u8 {
            let name = get_hexagram_name(upper, lower);
            assert_ne!(name, "未知");
            assert_eq!(get_hexagram_struct(&name), (upper, lower));
            assert!(!seen.contains(&name));
            seen.push(name);
        }
    }
    assert_eq!(seen.len(), 64);
}

#[test]
fn pairs_outside_the_table_are_unknown() {
    assert_eq!(get_hexagram_name(8, 0), "未知");
    assert_eq!(get_hexagram_name(0, 8), "未知");
    assert_eq!(get_hexagram_name(255, 255), "未知");
    assert_eq!(get_hexagram_struct("未知"), (0, 0));
    assert_eq!(get_hexagram_struct(""), (0, 0));
    assert_eq!(get_hexagram_struct("大"), (0, 0));
}

#[test]
fn change_line_flips_one_line() {
    let qian = Hexagram::new(7, 7);
    let expected = ["小畜", "大有", "夬", "姤", "同人", "履"];
    for line in 0..6 {
        let changed = qian.change_line(line);
        assert_eq!(changed.name(), expected[line]);
        let back = changed.change_line(line);
        assert_eq!((back.upper, back.lower), (7, 7));
    }
    let fu = Hexagram::from_name("复");
    assert_eq!((fu.upper, fu.lower), (1, 0));
    let changed = fu.change_line(0);
    assert_eq!((changed.upper, changed.lower), (1, 1));
    assert_eq!(changed.name(), "震");
    let top = fu.change_line(5);
    assert_eq!((top.upper, top.lower), (5, 0));
    assert_eq!(top.name(), "明夷");
}

#[test]
fn change_line_stays_in_the_table() {
    for upper in 0u8..8u8 {
        for lower in 0u8..8u8 {
            for line in 0..6 {
                let changed = Hexagram::new(upper, lower).change_line(line);
                assert!(changed.upper < 8 && changed.lower < 8);
                assert_ne!(changed.name(), "未知");
                assert_ne!((changed.upper, changed.lower), (upper, lower));
            }
        }
    }
}

#[test]
fn hexagram_from_unknown_name_is_kun() {
    let h = Hexagram::from_name("no such hexagram");
    assert_eq!((h.upper, h.lower), (0, 0));
    assert_eq!(h.name(), "坤");
}

#[test]
fn trigram_names() {
    let expected = ["坤", "震", "坎", "兑", "艮", "离", "巽", "乾"];
    for val in 0u8..8u8 {
        assert_eq!(get_trigram_name(val), expected[val as usize]);
        assert_eq!(get_hexagram_name(val, val), expected[val as usize]);
    }
    assert_eq!(get_trigram_name(8), "?");
}

#[test]
fn zheng_gua_sequence() {
    let seq = get_zheng_gua_seq();
    assert_eq!(seq.len(), 60);
    let head = ["复", "颐", "屯", "益", "震", "噬嗑", "随", "无妄"];
    for (i, name) in head.iter().enumerate() {
        assert_eq!(&seq[i], name);
    }
    assert_eq!(seq[12], "丰");
    assert_eq!(seq[13], "革");
    assert_eq!(seq[29], "夬");
    assert_eq!(seq[30], "姤");
    assert_eq!(seq[42], "涣");
    assert_eq!(seq[43], "蒙");
    assert_eq!(seq[59], "剥");
    for name in seq.iter() {
        assert!(!is_skipped_name(name));
    }
}

#[test]
fn year_gua_sequence() {
    let seq = get_year_gua_seq();
    assert_eq!(seq.len(), 60);
    assert_eq!(seq[0], "姤");
    assert_eq!(seq[2], "鼎");
    assert_eq!(seq[12], "涣");
    assert_eq!(seq[13], "蒙");
    assert_eq!(seq[59], "夬");
}

#[test]
fn fuxi_positions() {
    assert_eq!(fuxi_position("复"), Some(32));
    assert_eq!(fuxi_position("姤"), Some(0));
    assert_eq!(fuxi_position("乾"), Some(63));
    assert_eq!(fuxi_position("未知"), None);
    assert!(is_skipped_name("乾"));
    assert!(is_skipped_name("坤"));
    assert!(is_skipped_name("坎"));
    assert!(is_skipped_name("离"));
    assert!(!is_skipped_name("复"));
}
