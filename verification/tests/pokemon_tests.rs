use pokemons::decimal::i32_string;
use pokemons::pokemon::{evolve, greeting, ConcatError, Pokemon};

#[test]
fn verify_greet() {
    let details = Pokemon::new("Taupiqueur", 10).details();
    assert_eq!(details, "Taupiqueur: 10hp 5mp")
}

#[test]
fn verify_trait_fighter() {
    let strength = Pokemon::new("Taupiqueur", 10).strength();
    assert!(strength >= 0);
    assert!(strength <= 100);
}

#[test]
fn verify_trait_debug() {
    let taupi = Pokemon::new("Taupiqueur", 10);
    let formated = format!("{:?}", taupi);
    assert!(formated.contains("Pokemon { name: \"Taupiqueur\", "));
}

#[test]
fn verify_say_hello_ref() {
    let taupi = Pokemon::new("Taupiqueur", 10);
    greeting(&taupi);
    greeting(&taupi);
}

#[test]
fn verify_evolve_mut_ref() {
    let mut taupi = Pokemon::new("Taupiqueur", 10);
    evolve(&mut taupi);
    greeting(&taupi);
    assert_eq!(taupi.name, "Triopikeur");
}

#[test]
fn verify_copy() {
    let n = 7;
    let o = n;
    let p = n;
    assert_eq!(o, 7);
    assert_eq!(p, 7);
}

#[test]
fn verify_compare() {
    let taupi1 = Pokemon::new("Taupiqueur", 10);
    let taupi2 = Pokemon::new("Taupiqueur", 10);
    let trio = Pokemon::new("Triopikeur", 20);

    assert_eq!(taupi1.compare_to(&taupi2), true);
    assert_eq!(taupi1.compare_to(&trio), false);
}

#[test]
fn verify_display_trait() {
    let taupi = Pokemon::new("Taupiqueur", 10);
    assert_eq!(taupi.display_text(), "Taupiqueur");
}

#[test]
fn verify_concat() {
    let array = [
        Pokemon::new("Taupiqueur", 10),
        Pokemon::new("Triopikeur", 20),
        Pokemon::new("Colossinge", 15),
    ];
    assert_eq!(
        pokemons::pokemon::concat(&array),
        Ok("Taupiqueur, Triopikeur, Colossinge".to_string())
    );
}

#[test]
fn new_defaults_mana_to_five() {
    let p = Pokemon::new("Colossinge", 15);
    assert_eq!(p.mp, Some(5));
    assert_eq!(p.hp, 15);
    assert_eq!(p.name, "Colossinge");
}

#[test]
fn details_shows_absent_mana_as_zero() {
    let p = Pokemon {
        name: "Colossinge".to_string(),
        hp: 3,
        mp: None,
    };
    assert_eq!(p.details(), "Colossinge: 3hp 0mp");
}

#[test]
fn details_with_negative_hit_points() {
    let p = Pokemon {
        name: "Colossinge".to_string(),
        hp: -7,
        mp: Some(2),
    };
    assert_eq!(p.details(), "Colossinge: -7hp 2mp");
}

#[test]
fn strength_stays_in_range_across_calls() {
    let p = Pokemon::new("Taupiqueur", 10);
    for _ in 0..200 {
        let v = p.strength();
        assert!(0 <= v && v < 100);
    }
}

#[test]
fn get_hp_returns_hit_points() {
    let p = Pokemon::new("Taupiqueur", 10);
    assert_eq!(p.get_hp(), 10);
}

#[test]
fn compare_to_is_reflexive() {
    let p = Pokemon::new("Taupiqueur", 10);
    assert!(p.compare_to(&p));
}

#[test]
fn evolve_leaves_other_names_unchanged() {
    let mut p = Pokemon::new("Bulbizarre", 10);
    evolve(&mut p);
    assert_eq!(p.name, "Bulbizarre");
    assert_eq!(p.hp, 10);
    assert_eq!(p.mp, Some(5));
}

#[test]
fn greeting_text_is_hello_name() {
    let p = Pokemon::new("Taupiqueur", 10);
    assert_eq!(greeting(&p), "hello Taupiqueur");
}

#[test]
fn concat_of_empty_input_is_an_error() {
    let array: [Pokemon; 0] = [];
    assert_eq!(pokemons::pokemon::concat(&array), Err(ConcatError::EmptyInput));
}

#[test]
fn concat_of_one_item_has_no_separator() {
    let array = [Pokemon::new("Taupiqueur", 10)];
    assert_eq!(pokemons::pokemon::concat(&array), Ok("Taupiqueur".to_string()));
}

#[test]
fn decimal_rendering_exact_values() {
    assert_eq!(i32_string(0), "0");
    assert_eq!(i32_string(10), "10");
    assert_eq!(i32_string(-7), "-7");
    assert_eq!(i32_string(i32::MAX), "2147483647");
    assert_eq!(i32_string(i32::MIN), "-2147483648");
}
