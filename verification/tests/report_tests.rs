use quantframe::report::{arcane_key, fish_size, mod_rank, name_rule, riven_rule, ReportedItem};

fn item(name: &str) -> ReportedItem {
    ReportedItem { name: name.to_string(), quantity: 1, unique_name: String::new(), rank: None }
}

#[test]
fn fixed_names() {
    assert_eq!(
        name_rule("plat"),
        Some((Some("Platinum".to_string()), Some("/QF_Special/Platinum".to_string())))
    );
    assert_eq!(name_rule("Imprint of Kubrow"), Some((None, Some("/QF_Special/Imprint/Kubrow".to_string()))));
    assert_eq!(
        name_rule("Legendary Core"),
        Some((None, Some("/QF_Special/Legendary Fusion Core".to_string())))
    );
    assert_eq!(
        name_rule("Ancient Core x2"),
        Some((Some("/QF_Special/Legendary Ancient Core".to_string()), None))
    );
    assert_eq!(name_rule("Forma"), None);
    let mut a = item("Ancient Core");
    a.unique_name = "kept".to_string();
    assert!(a.apply_name_rule());
    assert_eq!(a.name, "/QF_Special/Legendary Ancient Core");
    assert_eq!(a.unique_name, "kept");
    let mut f = item("Forma");
    assert!(!f.apply_name_rule());
    assert_eq!(f.name, "Forma");
}

#[test]
fn unveiled_riven_names() {
    assert_eq!(
        riven_rule("Soma Vexi-critatis (RIVEN RANK 8)"),
        Some(("Soma Riven Mod (Vexi-critatis)".to_string(), "/QF_Special/Riven/Soma/Vexi-critatis".to_string()))
    );
    assert_eq!(riven_rule("Rifle Riven Mod (RIVEN RANK 0)"), None);
    assert_eq!(riven_rule("Serration (R 3)"), None);
    assert_eq!(riven_rule("Forma"), None);
}

#[test]
fn lookup_hits_replace_names() {
    let mut i = item("forma bp");
    assert!(i.apply_lookup(Some(("Forma Blueprint".to_string(), "/Lotus/Forma".to_string()))));
    assert_eq!(i.name, "Forma Blueprint");
    assert_eq!(i.unique_name, "/Lotus/Forma");
    assert!(!i.apply_lookup(None));
    assert_eq!(i.name, "Forma Blueprint");
}

#[test]
fn bracket_ranks_and_sizes() {
    assert_eq!(mod_rank("(RANK 3)"), Some(3));
    assert_eq!(mod_rank("(3)"), Some(3));
    assert_eq!(mod_rank("(R  -2 x)"), Some(-2));
    assert_eq!(mod_rank("(no rank)"), None);
    assert_eq!(fish_size("(S)"), Some('S' as i64));
    assert_eq!(fish_size("(SM)"), None);
    assert_eq!(fish_size("(\u{e9})"), None);
}

#[test]
fn arcane_lookup_keys() {
    assert_eq!(arcane_key("Arcane Energize ???"), Some("Arcane Energize".to_string()));
    assert_eq!(arcane_key("Arcane Grace \u{e000}"), Some("Arcane Grace".to_string()));
    assert_eq!(arcane_key("???"), Some(String::new()));
    assert_eq!(arcane_key("Forma"), None);
}
