use craft_quest::catalog::{Catalog, CatalogError, Recipe};
use craft_quest::element::Element;

fn shaved_ice() -> Element {
    Element::new("Shaved Ice", "shaved_ice", "The most clean shaven ice you've ever seen")
}

fn legend_dairy() -> Element {
    Element::new("Legend Dairy", "legend_dairy", "Utterly Delicious")
}

fn utter_ice_cream() -> Element {
    Element::new("Utter Ice Cream", "utter_ice_cream", "Utterly delicious")
}

fn glacier_ice() -> Element {
    Element::new("Glacier Ice", "glacier_ice", "Your tongue is drawn to the frosty surface")
}

fn yeti_water() -> Element {
    Element::new("Yeti Water", "yeti_water", "A hydrating liquid with a strange stench")
}

fn fire_pepper() -> Element {
    Element::new("Fire Pepper", "fire_pepper", "Really, really, REALLY hot.")
}

fn sample_catalog() -> Catalog {
    let mut c = Catalog::new();
    c.register_element(shaved_ice()).unwrap();
    c.register_element(legend_dairy()).unwrap();
    c.register_element(utter_ice_cream()).unwrap();
    c.register_element(glacier_ice()).unwrap();
    c.register_element(yeti_water()).unwrap();
    c.register_recipe(Recipe::new(shaved_ice(), legend_dairy(), utter_ice_cream())).unwrap();
    c.register_recipe(Recipe::new(yeti_water(), fire_pepper(), glacier_ice())).unwrap();
    c
}

#[test]
fn resolve_is_commutative() {
    let c = sample_catalog();
    let a = shaved_ice();
    let b = legend_dairy();
    assert_eq!(c.resolve(&a, &b), c.resolve(&b, &a));
    assert_eq!(c.resolve(&a, &b), Some(utter_ice_cream()));
    let x = yeti_water();
    let y = fire_pepper();
    assert_eq!(c.resolve(&x, &y), c.resolve(&y, &x));
}

#[test]
fn resolve_unregistered_pair_is_none() {
    let c = sample_catalog();
    assert_eq!(c.resolve(&shaved_ice(), &glacier_ice()), None);
    assert_eq!(c.resolve(&utter_ice_cream(), &utter_ice_cream()), None);
    assert_eq!(c.resolve(&fire_pepper(), &fire_pepper()), None);
}

#[test]
fn resolve_round_trip_for_registered_recipes() {
    let c = sample_catalog();
    let recipes = vec![
        Recipe::new(shaved_ice(), legend_dairy(), utter_ice_cream()),
        Recipe::new(yeti_water(), fire_pepper(), glacier_ice()),
    ];
    for r in &recipes {
        assert_eq!(c.resolve(&r.first, &r.second), Some(r.result.duplicate()));
    }
}

#[test]
fn register_recipe_duplicate_key_fails() {
    let mut c = sample_catalog();
    let same_order = Recipe::new(shaved_ice(), legend_dairy(), glacier_ice());
    assert_eq!(c.register_recipe(same_order), Err(CatalogError::DuplicateKey));
    let swapped = Recipe::new(legend_dairy(), shaved_ice(), glacier_ice());
    assert_eq!(c.register_recipe(swapped), Err(CatalogError::DuplicateKey));
}

#[test]
fn register_element_duplicate_id_fails() {
    let mut c = sample_catalog();
    let twin = Element::new("Shaved Ice Again", "shaved_ice", "another description");
    assert_eq!(c.register_element(twin), Err(CatalogError::DuplicateId));
    let fresh = Element::new("Fire Pepper", "fire_pepper", "Really, really, REALLY hot.");
    assert_eq!(c.register_element(fresh), Ok(()));
}

#[test]
fn lookup_recipe_canonicalizes_the_pair() {
    let c = sample_catalog();
    let found = c
        .lookup_recipe(&"legend_dairy".to_string(), &"shaved_ice".to_string())
        .expect("registered pair");
    assert_eq!(found.first, shaved_ice());
    assert_eq!(found.second, legend_dairy());
    assert_eq!(found.result, utter_ice_cream());
    assert!(c.lookup_recipe(&"shaved_ice".to_string(), &"shaved_ice".to_string()).is_none());
}

#[test]
fn recipe_id_is_the_ordered_triple() {
    let r = Recipe::new(shaved_ice(), legend_dairy(), utter_ice_cream());
    assert_eq!(r.id(), "shaved_ice_legend_dairy_utter_ice_cream");
}

#[test]
fn sprite_file_path_derives_from_the_id() {
    assert_eq!(glacier_ice().sprite_file_path(), "sprites/glacier_ice.png");
    assert_eq!(shaved_ice().sprite_file_path(), "sprites/shaved_ice.png");
}
