use std::collections::hash_map::DefaultHasher;
use std::hash::{Hash, Hasher};
use dockyard::service_logs::{
    color_at, general_error_message, general_message, hash_to_colored_string, service_logs,
    service_logs_messages, service_started, service_stop_or_delete_message,
    show_pulled_image_specific_logs, show_service_error_logs, ServiceColor,
};

fn painted(code: &str, text: &str) -> String {
    format!("\u{1b}[{}m{}\u{1b}[39m", code, text)
}

#[test]
fn colours_paint_with_their_codes() {
    assert_eq!(ServiceColor::Green.paint("x"), painted("32", "x"));
    assert_eq!(ServiceColor::Blue.paint("x"), painted("34", "x"));
    assert_eq!(ServiceColor::Yellow.paint("x"), painted("33", "x"));
    assert_eq!(ServiceColor::Cyan.paint("x"), painted("36", "x"));
    assert_eq!(ServiceColor::Magenta.paint("x"), painted("35", "x"));
}

#[test]
fn colours_in_order() {
    assert_eq!(color_at(0), ServiceColor::Green);
    assert_eq!(color_at(1), ServiceColor::Blue);
    assert_eq!(color_at(2), ServiceColor::Yellow);
    assert_eq!(color_at(3), ServiceColor::Cyan);
    assert_eq!(color_at(4), ServiceColor::Magenta);
}

#[test]
fn same_name_same_colour() {
    let a = hash_to_colored_string("auth_service");
    let b = hash_to_colored_string("auth_service");
    assert_eq!(a, b);
    let options: Vec<String> = ["32", "34", "33", "36", "35"]
        .iter()
        .map(|c| painted(c, "auth_service"))
        .collect();
    assert!(options.contains(&a));
}

#[test]
fn general_lines() {
    assert_eq!(general_message("id", "msg"), format!("{} -> \"msg\"", painted("32", "id")));
    assert_eq!(
        general_error_message("id", "bad"),
        format!("{} -> \"bad\"", painted("31", "id"))
    );
    assert_eq!(
        service_stop_or_delete_message("abc123", "stopped"),
        format!("{} -> \"stopped\"", painted("31", "abc123"))
    );
}

#[test]
fn messages_are_quoted_and_escaped() {
    assert_eq!(
        general_message("id", "say \"hi\"\n"),
        format!("{} -> \"say \\\"hi\\\"\\n\"", painted("32", "id"))
    );
}

#[test]
fn service_lines() {
    let name = hash_to_colored_string("web");
    assert_eq!(service_logs("web", "Step 1/3"), format!("{} -> Step 1/3", name));
    assert_eq!(service_logs_messages("web", "up"), format!("{} -> \"up\"", name));
    assert_eq!(service_started("web", "started".to_string()), format!("{} -> \"started\"", name));
    assert_eq!(show_service_error_logs("web", "oops"), format!("{} -> \"oops\"", name));
    let image = hash_to_colored_string("nginx");
    assert_eq!(
        show_pulled_image_specific_logs("nginx", "Pulling"),
        format!("{} -> Pulling", image)
    );
}

#[test]
fn colour_is_picked_by_the_default_hasher() {
    for name in ["web", "db", "auth_service", "cache", ""] {
        let mut hasher = DefaultHasher::new();
        name.hash(&mut hasher);
        let idx = (hasher.finish() as usize) % 5;
        let code = ["32", "34", "33", "36", "35"][idx];
        assert_eq!(hash_to_colored_string(name), painted(code, name));
    }
}
