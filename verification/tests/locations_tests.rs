use terminoda::locations::{config_root, ssh_home, ConfigRoot, LocationError};

fn s(text: &str) -> Option<String> {
    Some(text.to_string())
}

#[test]
fn configuration_stands_under_the_home_directory() {
    assert_eq!(config_root(s("/home/ada"), None), ConfigRoot::UnderHome("/home/ada".to_string()));
    assert_eq!(
        config_root(s("/home/ada"), s("C:\\Data")),
        ConfigRoot::UnderHome("/home/ada".to_string())
    );
}

#[test]
fn configuration_falls_back_to_application_data() {
    assert_eq!(config_root(None, s("C:\\Data")), ConfigRoot::Plain("C:\\Data".to_string()));
}

#[test]
fn configuration_falls_back_to_the_working_directory() {
    assert_eq!(config_root(None, None), ConfigRoot::Plain(".".to_string()));
}

#[test]
fn ssh_directory_stands_under_home_or_profile() {
    assert_eq!(ssh_home(s("/home/ada"), s("C:\\Users\\ada")), Ok("/home/ada".to_string()));
    assert_eq!(ssh_home(None, s("C:\\Users\\ada")), Ok("C:\\Users\\ada".to_string()));
}

#[test]
fn ssh_directory_needs_a_home() {
    assert_eq!(ssh_home(None, None), Err(LocationError::NoHomeDirectory));
    assert_eq!(LocationError::NoHomeDirectory.message(), "Could not find home directory");
}
