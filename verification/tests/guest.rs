use user_access::guest::{guest_name, random_guest_name};

#[test]
fn guest_name_prefixes_the_token() {
    assert_eq!(guest_name("pushy-pencil-5602"), "guest-pushy-pencil-5602");
    assert_eq!(guest_name(""), "guest-");
}

#[test]
fn minted_name_has_the_guest_shape() {
    for _ in 0..200 {
        let name = random_guest_name();
        assert!(name.starts_with("guest-"), "{}", name);
        let token = &name["guest-".len()..];
        let chars: Vec<char> = token.chars().collect();
        assert!(chars.len() >= 6, "{}", name);
        assert_eq!(chars[chars.len() - 5], '-');
        for c in &chars[chars.len() - 4..] {
            assert!(c.is_ascii_digit(), "{}", name);
        }
        let parts: Vec<&str> = token.split('-').collect();
        assert!(parts.len() >= 3, "{}", name);
        assert!(!parts[0].is_empty());
    }
}

#[test]
fn minted_names_vary() {
    let first = random_guest_name();
    let mut differs = false;
    for _ in 0..50 {
        if random_guest_name() != first {
            differs = true;
        }
    }
    assert!(differs);
}
