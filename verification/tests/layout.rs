use apollo_layout::errors::ErrorDetails;
use apollo_layout::layout::{apollo_home, apollo_home_bin, apollo_home_bin_of, apollo_home_of};
use apollo_layout::path::AppPath;

fn base(s: &str) -> AppPath {
    AppPath::from_base(String::from(s))
}

#[test]
fn home_under_unix_home() {
    let home = apollo_home_of(Some(base("/home/alice"))).unwrap();
    assert_eq!(home.render("/"), "/home/alice/.apollo");
    let bin = apollo_home_bin_of(Some(base("/home/alice"))).unwrap();
    assert_eq!(bin.render("/"), "/home/alice/.apollo/bin");
}

#[test]
fn home_under_windows_home() {
    let home = apollo_home_of(Some(base("C:\\Users\\alice"))).unwrap();
    assert_eq!(home.render("\\"), "C:\\Users\\alice\\.apollo");
    let bin = apollo_home_bin_of(Some(base("C:\\Users\\alice"))).unwrap();
    assert_eq!(bin.render("\\"), "C:\\Users\\alice\\.apollo\\bin");
}

#[test]
fn no_home_fails_both() {
    assert_eq!(apollo_home_of(None), Err(ErrorDetails::NoHomeEnvironmentVar));
    assert_eq!(apollo_home_bin_of(None), Err(ErrorDetails::NoHomeEnvironmentVar));
}

#[test]
fn resolution_is_idempotent_for_a_fixed_provider_answer() {
    let first = apollo_home_of(Some(base("/home/alice")));
    let second = apollo_home_of(Some(base("/home/alice")));
    assert_eq!(first, second);
    let first_bin = apollo_home_bin_of(Some(base("/home/alice")));
    let second_bin = apollo_home_bin_of(Some(base("/home/alice")));
    assert_eq!(first_bin, second_bin);
}

#[test]
fn resolution_is_idempotent_under_the_ambient_environment() {
    assert_eq!(apollo_home(), apollo_home());
    assert_eq!(apollo_home_bin(), apollo_home_bin());
}

#[test]
fn ambient_resolution_appends_the_fixed_segments() {
    match apollo_home() {
        Ok(home) => {
            let rendered = home.render("/");
            assert!(rendered.ends_with("/.apollo"));
            let bin = apollo_home_bin().unwrap();
            assert_eq!(bin.render("/"), format!("{}/bin", rendered));
        }
        Err(e) => {
            assert_eq!(e, ErrorDetails::NoHomeEnvironmentVar);
            assert_eq!(apollo_home_bin(), Err(ErrorDetails::NoHomeEnvironmentVar));
        }
    }
}

#[test]
fn join_appends_one_segment() {
    let p = base("x").join("y");
    assert_eq!(p.render("/"), "x/y");
}

#[test]
fn render_of_a_bare_base_is_the_base() {
    assert_eq!(base("/home/alice").render("/"), "/home/alice");
    assert_eq!(base("").render("/"), "");
}

#[test]
fn home_under_empty_base() {
    let home = apollo_home_of(Some(base(""))).unwrap();
    assert_eq!(home.render("/"), "/.apollo");
}
