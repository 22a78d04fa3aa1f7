use rocketsim_rs::error::{push_decimal, NoCarFound};

#[test]
fn message_names_the_car() {
    assert_eq!(NoCarFound(7).message(), "No car found in the given arena at the given ID 7.");
    assert_eq!(NoCarFound(0).message(), "No car found in the given arena at the given ID 0.");
    assert_eq!(NoCarFound(10).message(), "No car found in the given arena at the given ID 10.");
    assert_eq!(
        NoCarFound(u32::MAX).message(),
        "No car found in the given arena at the given ID 4294967295."
    );
}

#[test]
fn message_matches_std_formatting() {
    for id in [1u32, 9, 99, 100, 1000, 65535, 123456789, 1000000000] {
        assert_eq!(
            NoCarFound(id).message(),
            format!("No car found in the given arena at the given ID {}.", id)
        );
    }
}

#[test]
fn different_ids_give_different_messages() {
    assert_ne!(NoCarFound(12).message(), NoCarFound(21).message());
    assert_ne!(NoCarFound(1).message(), NoCarFound(10).message());
}

#[test]
fn car_id_is_the_id_asked_for() {
    assert_eq!(NoCarFound(31).car_id(), 31);
    assert_eq!(NoCarFound(31), NoCarFound(31));
    assert_ne!(NoCarFound(31), NoCarFound(32));
}

#[test]
fn push_decimal_appends_digits() {
    let mut s = String::from("id=");
    push_decimal(&mut s, 305);
    assert_eq!(s, "id=305");
    let mut t = String::new();
    push_decimal(&mut t, 0);
    assert_eq!(t, "0");
}
