use parser_registry::error::RegistryError;

#[test]
fn invalid_path_messages() {
    let directory = RegistryError::InvalidPath { path: "plugins/..".to_string(), directory: true };
    assert_eq!(directory.message(), "\"plugins/..\" path is a directory!");
    let nothing = RegistryError::InvalidPath { path: String::new(), directory: false };
    assert_eq!(nothing.message(), "Not a valid path!");
}

#[test]
fn not_found_message() {
    let error = RegistryError::NotFound { path: "/does/not/exist".to_string() };
    assert_eq!(
        error.message(),
        "\"/does/not/exist\" either does not exist or one does not have permissions to access it!"
    );
}

#[test]
fn load_failure_message() {
    let error = RegistryError::LoadFailure {
        path: "./test.so".to_string(),
        message: "cannot open shared object file".to_string(),
    };
    assert_eq!(error.message(), "./test.so: cannot open shared object file");
}

#[test]
fn not_loaded_message() {
    let error = RegistryError::NotLoaded { path: "./test.so".to_string() };
    assert_eq!(error.message(), "./test.so: not loaded");
}

#[test]
fn parser_not_loaded_message() {
    let error = RegistryError::ParserNotLoaded {
        name: "vscode_parser".to_string(),
        path: "./test.so".to_string(),
    };
    assert_eq!(error.message(), "vscode_parser: not loaded on ./test.so");
}

#[test]
fn symbol_not_found_message() {
    let error = RegistryError::SymbolNotFound {
        name: "no_such_parser".to_string(),
        path: "./plugins/vscode.so".to_string(),
        message: "undefined symbol".to_string(),
    };
    assert_eq!(error.message(), "no_such_parser: not found in ./plugins/vscode.so: undefined symbol");
}

#[test]
fn parse_failure_message_is_the_parser_s_own() {
    let error = RegistryError::ParseFailure { message: "line 3: unexpected token".to_string() };
    assert_eq!(error.message(), "line 3: unexpected token");
}
