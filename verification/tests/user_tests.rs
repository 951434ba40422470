use primer::user::{build_user, with_contact};

#[test]
fn build_user_fills_every_field() {
    let user = build_user(
        String::from("someone@example.com"),
        String::from("someusername123"),
    );
    assert_eq!(user.email, "someone@example.com");
    assert_eq!(user.username, "someusername123");
    assert!(user.active);
    assert_eq!(user.sign_in_count, 1);
}

#[test]
fn with_contact_keeps_the_other_fields() {
    let user1 = build_user(
        String::from("someone@example.com"),
        String::from("someusername123"),
    );
    let user2 = with_contact(
        user1,
        String::from("another@example.com"),
        String::from("anotherusername123"),
    );
    assert_eq!(user2.email, "another@example.com");
    assert_eq!(user2.username, "anotherusername123");
    assert!(user2.active);
    assert_eq!(user2.sign_in_count, 1);
}
