use skycam::connect::{eq_ignore_ascii_case, CameraRequest};

fn names(list: &[&str]) -> Vec<String> {
    list.iter().map(|name| name.to_string()).collect()
}

#[test]
fn names_are_compared_without_case() {
    assert!(eq_ignore_ascii_case("Mars-C II", "mArs-c iI"));
    assert!(eq_ignore_ascii_case("", ""));
    assert!(eq_ignore_ascii_case("GRÜN", "grÜn"));
    assert!(!eq_ignore_ascii_case("GRÜN", "grün"));
    assert!(!eq_ignore_ascii_case("mars", "mars "));
    assert!(!eq_ignore_ascii_case("[", "{"));
    assert!(!eq_ignore_ascii_case("@", "`"));
}

#[test]
fn first_camera_of_a_name_is_selected() {
    let camera = Some("apollo-m".to_string());
    let request = CameraRequest::new(&camera);
    assert!(matches!(request, CameraRequest::Named("apollo-m")));
    assert_eq!(request.select(&names(&["Mars", "Apollo-M", "APOLLO-M"])), Some(1));
    assert_eq!(request.select(&names(&["Mars"])), None);
    assert_eq!(request.select(&names(&[])), None);
}

#[test]
fn without_a_name_the_first_camera_is_selected() {
    let request = CameraRequest::new(&None);
    assert!(matches!(request, CameraRequest::First));
    assert_eq!(request.select(&names(&["Mars", "Apollo"])), Some(0));
    assert_eq!(request.select(&names(&[])), None);
}

#[test]
fn dummy_camera_is_no_device() {
    let camera = Some("dummy".to_string());
    let request = CameraRequest::new(&camera);
    assert!(matches!(request, CameraRequest::Dummy));
    assert_eq!(request.select(&names(&["dummy"])), None);
    let camera = Some("Dummy".to_string());
    assert!(matches!(CameraRequest::new(&camera), CameraRequest::Named("Dummy")));
}
