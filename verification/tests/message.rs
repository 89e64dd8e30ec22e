use cargo_verison::message::{commit_message, expand_template};

#[test]
fn every_placeholder_is_replaced() {
    assert_eq!(expand_template("release %s", "2.0.0"), "release 2.0.0");
    assert_eq!(expand_template("%s", "2.0.0"), "2.0.0");
    assert_eq!(expand_template("%s%s", "1.0.0"), "1.0.01.0.0");
    assert_eq!(expand_template("from %s to %s.", "1.2.3"), "from 1.2.3 to 1.2.3.");
    assert_eq!(expand_template("Upgrade to %s for reasons", "0.1.1"), "Upgrade to 0.1.1 for reasons");
}

#[test]
fn a_template_without_placeholder_is_used_verbatim() {
    assert_eq!(expand_template("release", "2.0.0"), "release");
    assert_eq!(expand_template("", "2.0.0"), "");
    assert_eq!(expand_template("100% sure", "2.0.0"), "100% sure");
    assert_eq!(expand_template("%S %d s%", "2.0.0"), "%S %d s%");
    assert_eq!(expand_template("%", "2.0.0"), "%");
}

#[test]
fn placeholders_are_read_from_the_left_and_not_read_again() {
    assert_eq!(expand_template("%%s", "1.0.0"), "%1.0.0");
    assert_eq!(expand_template("%%ss", "1.0.0"), "%1.0.0s");
    assert_eq!(expand_template("%s", "%s"), "%s");
    assert_eq!(expand_template("%%s", "s"), "%s");
    assert_eq!(expand_template("%s", ""), "");
}

#[test]
fn templates_may_hold_any_characters() {
    assert_eq!(expand_template("🚀 version %s – prête", "1.0.0"), "🚀 version 1.0.0 – prête");
    assert_eq!(expand_template("é%sé", "ü"), "éüé");
}

#[test]
fn the_message_defaults_to_the_version() {
    assert_eq!(commit_message(None, "2.0.0"), "2.0.0");
    assert_eq!(commit_message(Some("release %s"), "2.0.0"), "release 2.0.0");
    assert_eq!(commit_message(Some(""), "2.0.0"), "");
}

#[test]
fn expansion_agrees_with_replacing_in_a_string() {
    for template in ["", "%", "%s", "s%", "%%s%s%", "a%sb%sc%", "%ss%s", "%%%sss"] {
        for version in ["", "1.2.3", "%s", "%", "s"] {
            assert_eq!(expand_template(template, version), template.replace("%s", version));
        }
    }
}
