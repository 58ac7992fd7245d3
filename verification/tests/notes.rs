use excel_grid::notes::notes_file_name;

#[test]
fn plain_identifier_gets_the_extension() {
    assert_eq!(notes_file_name("P-1001"), "P-1001.txt");
}

#[test]
fn path_separators_become_underscores() {
    assert_eq!(notes_file_name("a/b\\c"), "a_b_c.txt");
    assert_eq!(notes_file_name("../../etc/passwd"), ".._.._etc_passwd.txt");
    assert_eq!(notes_file_name("\\\\"), "__.txt");
}

#[test]
fn empty_identifier_gives_the_bare_extension() {
    assert_eq!(notes_file_name(""), ".txt");
}

#[test]
fn other_characters_are_kept() {
    assert_eq!(notes_file_name("Año 2024: plan_b"), "Año 2024: plan_b.txt");
}
