use feature_generator::helpers::{to_camel, to_flat, to_kebab, to_pascal};

#[test]
fn equivalent_names_agree_under_every_transform() {
    let spellings = ["home-details", "HomeDetails", "home_details", "home details"];
    for s in spellings {
        assert_eq!("homedetails", to_flat(s).as_str(), "flat of {:?}", s);
        assert_eq!("HomeDetails", to_pascal(s).as_str(), "pascal of {:?}", s);
        assert_eq!("homeDetails", to_camel(s).as_str(), "camel of {:?}", s);
        assert_eq!("home-details", to_kebab(s).as_str(), "kebab of {:?}", s);
    }
}

#[test]
fn pascal_of_kebab_is_pascal() {
    let names = ["home", "home-details", "HomeDetails", "face detection", "my_app"];
    for s in names {
        assert_eq!(
            to_pascal(s).as_str(),
            to_pascal(to_kebab(s).as_str()).as_str(),
            "pascal of kebab of {:?}",
            s
        );
    }
}

#[test]
fn single_word_transforms() {
    assert_eq!("home", to_flat("home").as_str());
    assert_eq!("Home", to_pascal("home").as_str());
    assert_eq!("home", to_camel("home").as_str());
    assert_eq!("home", to_kebab("home").as_str());
}

#[test]
fn empty_name_gives_empty_outputs() {
    assert_eq!("", to_flat("").as_str());
    assert_eq!("", to_pascal("").as_str());
    assert_eq!("", to_camel("").as_str());
    assert_eq!("", to_kebab("").as_str());
}

#[test]
fn separator_only_name_gives_empty_outputs() {
    assert_eq!("", to_flat("-_ -").as_str());
    assert_eq!("", to_kebab("-_ -").as_str());
}

#[test]
fn repeated_separators_make_no_empty_words() {
    assert_eq!("home-details", to_kebab("home--details").as_str());
    assert_eq!("HomeDetails", to_pascal("__home__details__").as_str());
}

#[test]
fn case_boundary_splits_words() {
    assert_eq!("my-app-name", to_kebab("myAppName").as_str());
    assert_eq!("myAppName", to_camel("my-app-name").as_str());
}

#[test]
fn transforms_change_their_input() {
    assert_eq!("ab", to_flat("Ab").as_str());
    assert_eq!("Ab", to_pascal("ab").as_str());
}

#[test]
fn flat_and_kebab_are_idempotent() {
    for s in ["HomeDetails", "home details", "My-App"] {
        let flat = to_flat(s);
        assert_eq!(flat, to_flat(flat.as_str()));
        let kebab = to_kebab(s);
        assert_eq!(kebab, to_kebab(kebab.as_str()));
    }
}

#[test]
fn acronym_boundary_splits_before_the_last_upper() {
    assert_eq!("http-server", to_kebab("HTTPServer").as_str());
    assert_eq!("HttpServer", to_pascal("HTTPServer").as_str());
    assert_eq!("httpServer", to_camel("HTTPServer").as_str());
    assert_eq!("httpserver", to_flat("HTTPServer").as_str());
}

#[test]
fn digit_boundaries_split_words() {
    assert_eq!("area-51", to_kebab("area51").as_str());
    assert_eq!("Area51", to_pascal("area51").as_str());
    assert_eq!("xml-2-json", to_kebab("Xml2Json").as_str());
    assert_eq!("Xml2Json", to_pascal("xml2json").as_str());
    assert_eq!("xml2Json", to_camel("xml-2-json").as_str());
}

#[test]
fn upper_run_without_following_lower_stays_one_word() {
    assert_eq!("ab", to_kebab("AB").as_str());
    assert_eq!("Ab", to_pascal("AB").as_str());
}
