use ficon::checker::CheckError;
use ficon::checker::CliOption;
use ficon::checker::Ficon;
use ficon::checker::FilePath;
use ficon::config::Config;
use ficon::config::Override;

fn session(default: &str, overrides: &[(&str, &str)]) -> Ficon {
    Ficon::new(
        CliOption { path: ".".to_string() },
        Config {
            default_convention: default.to_string(),
            overrides: overrides
                .iter()
                .map(|(e, c)| Override { extension: e.to_string(), convention: c.to_string() })
                .collect(),
        },
    )
}

fn file(display: &str, stem: Option<&str>, extension: &str) -> FilePath {
    FilePath {
        display: display.to_string(),
        stem: stem.map(|s| s.to_string()),
        extension: extension.to_string(),
    }
}

#[test]
fn kebab_default_accepts_kebab_name() {
    let s = session("kebab", &[]);
    assert_eq!(s.check(&file("my-file.txt", Some("my-file"), "txt")), Ok(true));
}

#[test]
fn kebab_default_rejects_pascal_name() {
    let s = session("kebab", &[]);
    assert_eq!(s.check(&file("MyFile.txt", Some("MyFile"), "txt")), Ok(false));
}

#[test]
fn override_applies_and_accepts_camel_name() {
    let s = session("kebab", &[("ts", "camel")]);
    assert_eq!(s.check(&file("myFile.ts", Some("myFile"), "ts")), Ok(true));
}

#[test]
fn override_applies_and_rejects_kebab_name() {
    let s = session("kebab", &[("ts", "camel")]);
    assert_eq!(s.check(&file("my-file.ts", Some("my-file"), "ts")), Ok(false));
}

#[test]
fn single_uppercase_letter_satisfies_upper_snake() {
    let s = session("upper_snake", &[]);
    assert_eq!(s.check(&file("A.txt", Some("A"), "txt")), Ok(true));
}

#[test]
fn bogus_default_convention_is_fatal() {
    let s = session("bogus", &[]);
    assert_eq!(
        s.check(&file("a.txt", Some("a"), "txt")),
        Err(CheckError::UnknownConvention {
            path: "a.txt".to_string(),
            convention: "bogus".to_string(),
        })
    );
}

#[test]
fn missing_stem_is_a_malformed_path() {
    let s = session("kebab", &[]);
    assert_eq!(
        s.check(&file("..", None, "")),
        Err(CheckError::MalformedPath { path: "..".to_string() })
    );
}

#[test]
fn empty_stem_is_a_malformed_path() {
    let s = session("kebab", &[]);
    assert_eq!(
        s.check(&file("?.txt", Some(""), "txt")),
        Err(CheckError::MalformedPath { path: "?.txt".to_string() })
    );
}

#[test]
fn unknown_convention_error_reports_the_resolved_tag() {
    let s = session("kebab", &[("ts", "underscore_pre")]);
    assert_eq!(
        s.check(&file("a.ts", Some("a"), "ts")),
        Err(CheckError::UnknownConvention {
            path: "a.ts".to_string(),
            convention: "underscore_pre".to_string(),
        })
    );
}

#[test]
fn file_without_extension_uses_the_default() {
    let s = session("upper_snake", &[("ts", "camel")]);
    assert_eq!(s.check(&file("README", Some("README"), "")), Ok(true));
}

#[test]
fn target_dir_returns_the_option_path() {
    let s = session("kebab", &[]);
    assert_eq!(s.target_dir(), ".");
}
