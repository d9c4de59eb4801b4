use ara_kees::planet::{planet_blueprint, BasicResource, PlanetKind};

#[test]
fn blueprint_is_type_d() {
    assert_eq!(planet_blueprint().kind, PlanetKind::D);
}

#[test]
fn blueprint_generation_rules() {
    assert_eq!(
        planet_blueprint().gen_rules,
        vec![BasicResource::Oxygen, BasicResource::Hydrogen, BasicResource::Carbon]
    );
}

#[test]
fn blueprint_supports_oxygen_hydrogen_carbon_not_silicon() {
    let rules = planet_blueprint().gen_rules;
    assert!(rules.contains(&BasicResource::Oxygen), "Oxygen missing");
    assert!(rules.contains(&BasicResource::Hydrogen), "Hydrogen missing");
    assert!(rules.contains(&BasicResource::Carbon), "Carbon missing");
    assert!(!rules.contains(&BasicResource::Silicon), "Silicon shouldn't be available");
}

#[test]
fn blueprint_has_no_combination_rules() {
    assert!(planet_blueprint().comb_rules.is_empty());
}

#[test]
fn blueprint_generation_rules_are_distinct() {
    let rules = planet_blueprint().gen_rules;
    for i in 0..rules.len() {
        for j in 0..rules.len() {
            assert_eq!(rules[i] == rules[j], i == j);
        }
    }
}
