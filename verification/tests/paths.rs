use parser_registry::error::RegistryError;
use parser_registry::path::{
    platform_path, platform_path_with, resolve, resolve_with, string_from_path_buf, PathProbe,
};

fn platform_name(name: &str) -> String {
    libloading::library_filename(name).to_string_lossy().into_owned()
}

#[test]
fn library_filename_test() {
    let transformed = platform_path("test").unwrap();
    println!("{}", transformed);
    assert_eq!(transformed, platform_name("test"));
    assert_ne!(transformed, "test");
    assert!(transformed.contains("test"));
}

#[test]
fn platform_path_keeps_the_directory() {
    assert_eq!(
        platform_path("plugins/vscode").unwrap(),
        format!("plugins/{}", platform_name("vscode"))
    );
    assert_eq!(
        platform_path("./plugins/vscode.so").unwrap(),
        format!("./plugins/{}", platform_name("vscode.so"))
    );
}

#[test]
fn platform_path_of_a_bare_name_is_a_bare_name() {
    assert_eq!(platform_path("vscode").unwrap(), platform_name("vscode"));
}

#[test]
fn root_has_no_platform_form() {
    assert_eq!(
        platform_path("/"),
        Err(RegistryError::InvalidPath { path: "/".to_string(), directory: false })
    );
}

#[test]
fn empty_path_has_no_platform_form() {
    assert_eq!(
        platform_path(""),
        Err(RegistryError::InvalidPath { path: String::new(), directory: false })
    );
}

#[test]
fn dot_dot_is_a_directory() {
    assert_eq!(
        platform_path(".."),
        Err(RegistryError::InvalidPath { path: "..".to_string(), directory: true })
    );
    assert_eq!(
        platform_path("plugins/.."),
        Err(RegistryError::InvalidPath { path: "plugins/..".to_string(), directory: true })
    );
}

#[test]
fn platform_path_with_goes_by_the_parts_it_is_given() {
    assert_eq!(
        platform_path_with("anything", None, None),
        Err(RegistryError::InvalidPath { path: "anything".to_string(), directory: false })
    );
    assert_eq!(
        platform_path_with("anything", None, Some("up".to_string())),
        Err(RegistryError::InvalidPath { path: "anything".to_string(), directory: true })
    );
    assert_eq!(
        platform_path_with("plugins/vscode", Some("vscode".to_string()), Some("plugins".to_string())),
        Ok(format!("plugins/{}", platform_name("vscode")))
    );
}

#[test]
fn a_path_that_exists_is_taken_as_it_is() {
    let probe = PathProbe { literal_exists: true, platform_exists: true };
    assert_eq!(resolve("./plugins/vscode.so", probe), Ok("./plugins/vscode.so".to_string()));
    let probe = PathProbe { literal_exists: true, platform_exists: false };
    assert_eq!(resolve("./plugins/vscode.so", probe), Ok("./plugins/vscode.so".to_string()));
}

#[test]
fn a_directory_that_exists_is_taken_as_it_is() {
    let probe = PathProbe { literal_exists: true, platform_exists: false };
    assert_eq!(resolve("/", probe), Ok("/".to_string()));
}

#[test]
fn resolution_falls_back_on_the_platform_name() {
    let probe = PathProbe { literal_exists: false, platform_exists: true };
    let resolved = resolve("plugins/vscode", probe).unwrap();
    assert_eq!(resolved, format!("plugins/{}", platform_name("vscode")));
    assert_ne!(resolved, "plugins/vscode");
}

#[test]
fn resolution_is_repeatable() {
    let probe = PathProbe { literal_exists: false, platform_exists: true };
    assert_eq!(resolve("plugins/vscode", probe), resolve("plugins/vscode", probe));
    let resolved = resolve("plugins/vscode", probe).unwrap();
    let found = PathProbe { literal_exists: true, platform_exists: false };
    assert_eq!(resolve(&resolved, found), Ok(resolved.clone()));
}

#[test]
fn a_path_that_exists_in_no_form_is_not_found() {
    let probe = PathProbe { literal_exists: false, platform_exists: false };
    assert_eq!(
        resolve("/does/not/exist", probe),
        Err(RegistryError::NotFound { path: "/does/not/exist".to_string() })
    );
}

#[test]
fn a_path_without_a_file_name_is_invalid_not_missing() {
    let probe = PathProbe { literal_exists: false, platform_exists: false };
    assert_eq!(
        resolve("plugins/..", probe),
        Err(RegistryError::InvalidPath { path: "plugins/..".to_string(), directory: true })
    );
    let probe = PathProbe { literal_exists: false, platform_exists: true };
    assert_eq!(
        resolve("", probe),
        Err(RegistryError::InvalidPath { path: String::new(), directory: false })
    );
}

#[test]
fn resolve_with_decides_on_what_it_is_told() {
    let candidate = || Ok("plugins/libvscode.so".to_string());
    assert_eq!(resolve_with("plugins/vscode", true, candidate(), true), Ok("plugins/vscode".to_string()));
    assert_eq!(
        resolve_with("plugins/vscode", false, candidate(), true),
        Ok("plugins/libvscode.so".to_string())
    );
    assert_eq!(
        resolve_with("plugins/vscode", false, candidate(), false),
        Err(RegistryError::NotFound { path: "plugins/vscode".to_string() })
    );
    let invalid = RegistryError::InvalidPath { path: "..".to_string(), directory: true };
    assert_eq!(resolve_with("..", false, Err(invalid.clone()), true), Err(invalid.clone()));
    assert_eq!(resolve_with("..", true, Err(invalid), false), Ok("..".to_string()));
}

#[test]
fn a_path_buf_becomes_its_text() {
    let path = std::path::PathBuf::from("./plugins/vscode.so");
    assert_eq!(string_from_path_buf(&path), "./plugins/vscode.so");
    let mut joined = std::path::PathBuf::from("plugins");
    joined.push("vscode.so");
    assert_eq!(string_from_path_buf(&joined), "plugins/vscode.so");
    assert_eq!(string_from_path_buf(&std::path::PathBuf::new()), "");
}
