use svg_scene::utils::is_valid_filename;

#[test]
fn plain_names_are_valid() {
    assert_eq!(is_valid_filename("drawing.svg"), Ok(()));
    assert_eq!(is_valid_filename("con.txt"), Ok(()));
    assert_eq!(is_valid_filename(&"a".repeat(255)), Ok(()));
}

#[test]
fn empty_name() {
    assert_eq!(is_valid_filename(""), Err("Filename cannot be empty".to_string()));
}

#[test]
fn reserved_names_in_any_case() {
    assert_eq!(is_valid_filename("CON"), Err("Filename is reserved".to_string()));
    assert_eq!(is_valid_filename("lpt9"), Err("Filename is reserved".to_string()));
    assert_eq!(is_valid_filename("Com1"), Err("Filename is reserved".to_string()));
}

#[test]
fn forbidden_characters() {
    for name in ["a/b", "a\\b", "a:b", "a*b", "a?b", "a\"b", "a<b", "a>b", "a|b"] {
        assert_eq!(
            is_valid_filename(name),
            Err("Filename contains invalid characters".to_string())
        );
    }
}

#[test]
fn bad_ends_and_starts() {
    let end = Err("Filename cannot end with a space or dot".to_string());
    let start = Err("Filename cannot start with a space or dot".to_string());
    assert_eq!(is_valid_filename("name."), end);
    assert_eq!(is_valid_filename("name "), end);
    assert_eq!(is_valid_filename("name\u{3000}"), end);
    assert_eq!(is_valid_filename(".hidden"), start);
    assert_eq!(is_valid_filename("\tname"), start);
}

#[test]
fn long_names() {
    assert_eq!(is_valid_filename(&"a".repeat(256)), Err("Filename is too long".to_string()));
    assert_eq!(is_valid_filename(&"é".repeat(128)), Err("Filename is too long".to_string()));
}
