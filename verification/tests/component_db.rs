use vle_thermo::db::{available, component, normalize_name, to_component, ComponentCatalog, RawComponent};
use vle_thermo::saturation::SatPressureModel;
use vle_thermo::text::{str_le, trim};

fn bits(v: &[f64]) -> Vec<u64> {
    v.iter().map(|x| x.to_bits()).collect()
}

fn floats(v: &[u64]) -> Vec<f64> {
    v.iter().map(|b| f64::from_bits(*b)).collect()
}

#[allow(clippy::too_many_arguments)]
fn raw(
    mw: f64,
    tc: f64,
    pc: f64,
    omega: f64,
    psat: &[f64],
    cp: &[f64],
    liquid_volume: f64,
) -> RawComponent {
    RawComponent {
        formula: String::new(),
        cas: String::new(),
        mw: mw.to_bits(),
        tc: tc.to_bits(),
        pc: pc.to_bits(),
        omega: omega.to_bits(),
        zc: 0,
        vc: 0,
        tb: 0,
        psat_coeffs: bits(psat),
        cp_coeffs: bits(cp),
        liquid_volume: liquid_volume.to_bits(),
    }
}

/// A catalog holding the compounds (and the constants) that the lookups
/// below check.
fn catalog() -> ComponentCatalog {
    let records = vec![
        (
            "water".to_string(),
            raw(18.015, 647.096, 22064.0, 0.3443, &[], &[4.395, -4.186e-3, 1.405e-5, -1.564e-8, 0.632e-11], 18.07),
        ),
        (
            "benzene".to_string(),
            raw(78.114, 562.02, 4907.277, 0.211, &[], &[3.551, -6.184e-3, 14.365e-5, -19.807e-8, 8.234e-11], 89.41),
        ),
        (
            "toluene".to_string(),
            raw(
                92.141,
                591.75,
                4126.3,
                0.2657,
                &[5.606494, 3056.958021, -55.525],
                &[3.866, 3.558e-3, 13.356e-5, -18.659e-8, 7.690e-11],
                106.87,
            ),
        ),
        (
            "ammonia".to_string(),
            raw(
                17.03052,
                405.56,
                11363.4,
                0.256,
                &[5.595032, 2132.497737, -32.98],
                &[4.238, -4.215e-3, 2.041e-5, -2.126e-8, 0.761e-11],
                28.24,
            ),
        ),
    ];
    ComponentCatalog::from_records(&records)
}

#[test]
fn lookup_hit_case_and_whitespace_insensitive() {
    let db = catalog();
    let a = component(&db, "water").unwrap();
    let b = component(&db, "Water").unwrap();
    let c = component(&db, "  WATER  ").unwrap();
    assert_eq!(a.name, "water");
    assert_eq!(a.tc, b.tc);
    assert_eq!(a.tc, c.tc);
}

#[test]
fn lookup_miss_returns_none() {
    let db = catalog();
    assert!(component(&db, "unobtainium").is_none());
    assert!(component(&db, "H2O").is_none());
}

#[test]
fn spot_check_legacy_compound_vs_json_literals() {
    let db = catalog();
    let benzene = component(&db, "benzene").unwrap();
    assert_eq!(f64::from_bits(benzene.tc), 562.02);
    assert_eq!(f64::from_bits(benzene.pc), 4907.277);
    assert_eq!(f64::from_bits(benzene.omega), 0.211);
}

#[test]
fn spot_check_new_compound_vs_json_literals() {
    let db = catalog();
    let toluene = component(&db, "toluene").unwrap();
    assert_eq!(f64::from_bits(toluene.tc), 591.75);
    assert_eq!(f64::from_bits(toluene.pc), 4126.3);
    assert_eq!(f64::from_bits(toluene.omega), 0.2657);
}

#[test]
fn spot_check_ammonia_vs_json_literals() {
    let db = catalog();
    let nh3 = component(&db, "ammonia").unwrap();
    assert_eq!(f64::from_bits(nh3.tc), 405.56);
    assert_eq!(f64::from_bits(nh3.pc), 11363.4);
    assert_eq!(f64::from_bits(nh3.omega), 0.256);
    assert_eq!(f64::from_bits(nh3.mw), 17.03052);
    assert_eq!(floats(&nh3.psat_coeffs), vec![5.595032, 2132.497737, -32.98]);
    assert_eq!(f64::from_bits(nh3.liquid_volume), 28.24);
    assert_eq!(nh3.sat_model, SatPressureModel::Antoine);
    assert!(f64::from_bits(nh3.cp_coeffs[0]) != 0.0);
}

#[test]
fn mapped_fields_are_populated_and_defaults_left_zero() {
    let db = catalog();
    let toluene = component(&db, "toluene").unwrap();
    assert_eq!(floats(&toluene.psat_coeffs), vec![5.606494, 3056.958021, -55.525]);
    assert_eq!(toluene.cp_coeffs.len(), 5);
    assert!(f64::from_bits(toluene.cp_coeffs[0]) != 0.0);
    assert_eq!(toluene.sat_model, SatPressureModel::Antoine);
    assert_eq!(f64::from_bits(toluene.dipole_moment), 0.0);
    assert_eq!(f64::from_bits(toluene.zra), 0.0);
    assert_eq!(f64::from_bits(toluene.prsv_k1), 0.0);
}

#[test]
fn available_is_sorted() {
    let db = catalog();
    let names = available(&db);
    let mut sorted = names.clone();
    sorted.sort();
    assert_eq!(names, sorted);
}

#[test]
fn available_lists_every_name_once() {
    let db = catalog();
    assert_eq!(available(&db), vec!["ammonia", "benzene", "toluene", "water"]);
    assert_eq!(db.len(), 4);
}

#[test]
fn every_listed_name_resolves_to_itself() {
    let db = catalog();
    for name in available(&db) {
        assert_eq!(component(&db, &name).unwrap().name, name);
    }
}

#[test]
fn short_cp_list_is_zero_filled_and_long_one_truncated() {
    let short = to_component("x", &raw(1.0, 2.0, 3.0, 0.1, &[], &[1.5, 2.5], 0.0));
    assert_eq!(floats(&short.cp_coeffs), vec![1.5, 2.5, 0.0, 0.0, 0.0]);
    let long = to_component("y", &raw(1.0, 2.0, 3.0, 0.1, &[], &[1.0, 2.0, 3.0, 4.0, 5.0, 6.0, 7.0], 0.0));
    assert_eq!(floats(&long.cp_coeffs), vec![1.0, 2.0, 3.0, 4.0, 5.0]);
    assert_eq!(long.name, "y");
    assert_eq!(f64::from_bits(long.tc), 2.0);
    assert_eq!(long.vc, 0);
}

#[test]
fn later_record_with_same_lowercase_name_replaces_earlier() {
    let records = vec![
        ("Argon".to_string(), raw(39.948, 150.8, 4873.7, -0.002, &[], &[], 0.0)),
        ("neon".to_string(), raw(20.18, 44.4, 2653.0, -0.04, &[], &[], 0.0)),
        ("ARGON".to_string(), raw(39.948, 151.0, 4873.7, -0.002, &[], &[], 0.0)),
    ];
    let db = ComponentCatalog::from_records(&records);
    assert_eq!(db.len(), 2);
    let ar = component(&db, "argon").unwrap();
    assert_eq!(ar.name, "ARGON");
    assert_eq!(f64::from_bits(ar.tc), 151.0);
    assert_eq!(available(&db), vec!["ARGON", "neon"]);
}

#[test]
fn insert_then_lookup_reads_back() {
    let mut db = ComponentCatalog::new();
    assert!(component(&db, "water").is_none());
    db.insert(to_component("Water", &raw(18.015, 647.096, 22064.0, 0.3443, &[], &[], 0.0)));
    let w = component(&db, "\u{3000}water\t").unwrap();
    assert_eq!(w.name, "Water");
    assert!(component(&db, "wat er").is_none());
}

#[test]
fn normalize_trims_and_lowercases() {
    assert_eq!(normalize_name("  WATER  "), "water");
    assert_eq!(normalize_name("\u{a0}N-Butane\n"), "n-butane");
    assert_eq!(normalize_name("   "), "");
    assert_eq!(normalize_name("ÉTHANE"), "éthane");
}

#[test]
fn trim_removes_unicode_whitespace_only() {
    assert_eq!(trim(" \t\u{2003}a b\u{205f}\r\n"), "a b");
    assert_eq!(trim("x"), "x");
    assert_eq!(trim(""), "");
    assert_eq!(trim("\u{200b}x"), "\u{200b}x");
    let s = " \u{1680} mixed \u{3000}";
    assert_eq!(trim(s), s.trim());
}

#[test]
fn text_order_agrees_with_string_order() {
    let words = ["", "a", "ab", "b", "B", "é", "n-butane", "n-heptane", "water", "Water", "wa"];
    for a in words.iter() {
        for b in words.iter() {
            assert_eq!(str_le(a, b), a <= b, "{a:?} vs {b:?}");
        }
    }
}

#[test]
fn trimming_twice_changes_nothing() {
    for s in ["  a  ", "\u{2028}\u{3000}", "b", " x y ", ""] {
        assert_eq!(trim(trim(s)), trim(s));
    }
}

#[test]
fn lookup_hits_exactly_when_a_listed_name_matches() {
    let db = catalog();
    let listed = available(&db);
    for query in ["  Toluene", "WATER ", "ammonia", "H2O", "unobtainium", "benzene2"] {
        let key = normalize_name(query);
        let matching: Vec<&String> = listed.iter().filter(|n| n.to_lowercase() == key).collect();
        match component(&db, query) {
            Some(c) => {
                assert_eq!(matching.len(), 1);
                assert_eq!(&c.name, matching[0]);
            }
            None => assert!(matching.is_empty()),
        }
    }
}
