use rinit::mode::Mode;
use rinit::target::Target;

#[test]
fn target_parses_its_names() {
    assert_eq!(Target::parse("boot").unwrap(), Target::Boot);
    assert_eq!(Target::parse("default").unwrap(), Target::Default);
    assert_eq!(Target::parse("graphical").unwrap(), Target::Graphical);
}

#[test]
fn target_refuses_other_strings() {
    let err = Target::parse("Boot").unwrap_err();
    assert_eq!(err.runlevel, "Boot");
    let err = Target::parse("").unwrap_err();
    assert_eq!(err.runlevel, "");
    let err = Target::parse("default ").unwrap_err();
    assert_eq!(err.runlevel, "default ");
}

#[test]
fn target_from_str_matches_parse() {
    let t: Target = "graphical".parse().unwrap();
    assert_eq!(t, Target::Graphical);
    assert!("runlevel".parse::<Target>().is_err());
}

#[test]
fn target_names() {
    assert_eq!(Target::Boot.to_string(), "boot");
    assert_eq!(Target::Default.to_string(), "default");
    assert_eq!(Target::Graphical.as_str(), "graphical");
}

#[test]
fn target_name_roundtrip() {
    for t in [Target::Boot, Target::Default, Target::Graphical] {
        assert_eq!(Target::parse(&t.to_string()).unwrap(), t);
    }
}

#[test]
fn target_default_is_default() {
    assert_eq!(Target::default(), Target::Default);
}

#[test]
fn mode_default_is_user() {
    assert_eq!(Mode::default(), Mode::User);
}

#[test]
fn mode_names() {
    assert_eq!(Mode::Root.name(), "Root");
    assert_eq!(Mode::User.name(), "User");
    assert_eq!(Mode::Project.name(), "Project");
}
