use zoo_startup::title::{
    format_title, APPLICATION_WORD, PRODUCT_NAME, SEPARATOR, VERSION_MARK,
};

#[test]
fn title_for_a_plain_version() {
    assert_eq!(format_title("1.2.3"), "Zoo Databáze | Aplikace v1.2.3");
}

#[test]
fn title_is_the_same_every_time() {
    let first = format_title("1.2.3");
    let second = format_title("1.2.3");
    let third = format_title(&String::from("1.2.3"));
    assert_eq!(first, "Zoo Databáze | Aplikace v1.2.3");
    assert_eq!(first, second);
    assert_eq!(second, third);
}

#[test]
fn title_is_made_of_its_four_parts_and_the_version() {
    assert_eq!(PRODUCT_NAME, "Zoo Databáze");
    assert_eq!(SEPARATOR, " | ");
    assert_eq!(APPLICATION_WORD, "Aplikace");
    assert_eq!(VERSION_MARK, " v");
    let by_hand = format!(
        "{}{}{}{}{}",
        PRODUCT_NAME, SEPARATOR, APPLICATION_WORD, VERSION_MARK, "0.9.0"
    );
    assert_eq!(format_title("0.9.0"), by_hand);
    assert_eq!(by_hand, "Zoo Databáze | Aplikace v0.9.0");
}

#[test]
fn title_of_an_empty_version_is_the_prefix() {
    assert_eq!(format_title(""), "Zoo Databáze | Aplikace v");
}

#[test]
fn title_does_not_parse_or_trim_the_version() {
    assert_eq!(
        format_title(" 01.002.3 "),
        "Zoo Databáze | Aplikace v 01.002.3 "
    );
    assert_eq!(
        format_title("not a version"),
        "Zoo Databáze | Aplikace vnot a version"
    );
    assert_eq!(
        format_title("1.0.0-beta.1+build.5"),
        "Zoo Databáze | Aplikace v1.0.0-beta.1+build.5"
    );
    assert_eq!(format_title("v2"), "Zoo Databáze | Aplikace vv2");
    assert_eq!(format_title("č. 7\n"), "Zoo Databáze | Aplikace vč. 7\n");
}

#[test]
fn title_does_not_cut_a_long_version() {
    let version = "9".repeat(10_000);
    let title = format_title(&version);
    assert_eq!(title.chars().count(), 25 + 10_000);
    assert!(title.starts_with("Zoo Databáze | Aplikace v"));
    assert!(title.ends_with(&version));
}

#[test]
fn title_is_as_long_as_prefix_and_version() {
    for version in ["", "1", "1.2.3", "10.20.30-rc.1", "žluťoučký"] {
        let title = format_title(version);
        assert_eq!(title.chars().count(), 25 + version.chars().count());
        let rest: String = title.chars().skip(25).collect();
        assert_eq!(rest, version);
        let head: String = title.chars().take(25).collect();
        assert_eq!(head, "Zoo Databáze | Aplikace v");
    }
}

#[test]
fn titles_tell_versions_apart() {
    let versions = ["1.2.3", "1.2.30", "1.2.3 ", "01.2.3", "", "1.2"];
    for first in versions {
        for second in versions {
            assert_eq!(
                format_title(first) == format_title(second),
                first == second
            );
        }
    }
}
