use tino::TinoError;

#[test]
fn errors_without_a_cause_have_fixed_messages() {
    assert_eq!(TinoError::ConfigDirNotFound.message(), "Configuration directory not found.");
    assert_eq!(TinoError::HomeDirNotFound.message(), "Home directory not found.");
    assert_eq!(TinoError::NotSelectedCategory.message(), "A valid category haven't be selected.");
    assert_eq!(TinoError::NotSelectedTinoFile.message(), "A file haven't be selected.");
}

#[test]
fn errors_with_a_cause_name_it() {
    assert_eq!(
        TinoError::ReadConfigFileFailed(String::from("No such file")).message(),
        "Error while reading config file: No such file"
    );
    assert_eq!(
        TinoError::DeserializeConfigFileContentFailed(String::from("missing field")).message(),
        "Error while deserializing config file content: missing field"
    );
    assert_eq!(
        TinoError::DirCouldNotBeReaded(String::from("/n/todos"), String::from("denied")).message(),
        "Error while trying to read /n/todos directory: denied"
    );
    assert_eq!(
        TinoError::ReadTinoFileFailed(String::from("gone")).message(),
        "Error while reading tino file content: gone"
    );
}
