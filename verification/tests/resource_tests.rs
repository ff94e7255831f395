use nekotatsu_pipeline::error::PipelineError;
use nekotatsu_pipeline::resource::{iterate, lookup, AppSettings, CacheFile, ResourceDescriptor};

fn sources() -> ResourceDescriptor {
    ResourceDescriptor {
        key: "custom_extensions_url".to_string(),
        default_url: "https://github.com/keiyoushi/extensions/raw/refs/heads/repo/index.min.json"
            .to_string(),
        cache_file_name: "tachi_sources.json".to_string(),
        display_title: "Tachiyomi Sources URL".to_string(),
    }
}

fn parsers() -> ResourceDescriptor {
    ResourceDescriptor {
        key: "custom_parsers_url".to_string(),
        default_url: "https://github.com/KotatsuApp/kotatsu-parsers/archive/refs/heads/master.zip"
            .to_string(),
        cache_file_name: "kotatsu_parsers.zip".to_string(),
        display_title: "Kotatsu Parsers URL".to_string(),
    }
}

fn script() -> ResourceDescriptor {
    ResourceDescriptor {
        key: "custom_fixer_url".to_string(),
        default_url:
            "https://raw.githubusercontent.com/phantomshift/nekotatsu/master/nekotatsu-core/src/correction.luau"
                .to_string(),
        cache_file_name: "correction.luau".to_string(),
        display_title: "Fixer Script URL".to_string(),
    }
}

#[test]
fn iterate_lists_the_three_resources_in_order() {
    assert_eq!(iterate(), vec![sources(), parsers(), script()]);
}

#[test]
fn iterate_twice_gives_the_same_list() {
    assert_eq!(iterate(), iterate());
}

#[test]
fn no_two_resources_share_a_key_or_a_file() {
    let all = iterate();
    for i in 0..all.len() {
        for j in 0..all.len() {
            if i != j {
                assert_ne!(all[i].key, all[j].key);
                assert_ne!(all[i].cache_file_name, all[j].cache_file_name);
            }
        }
        assert_ne!(all[i].cache_file_name, CacheFile::ParserCatalog.name());
    }
}

#[test]
fn lookup_finds_each_key() {
    assert_eq!(lookup("custom_extensions_url"), Ok(sources()));
    assert_eq!(lookup("custom_parsers_url"), Ok(parsers()));
    assert_eq!(lookup("custom_fixer_url"), Ok(script()));
}

#[test]
fn lookup_of_an_unknown_key_fails_with_the_key() {
    assert_eq!(lookup("custom_url"), Err(PipelineError::UnknownResource("custom_url".to_string())));
    assert_eq!(lookup(""), Err(PipelineError::UnknownResource(String::new())));
    assert_eq!(
        lookup("Custom_Fixer_Url"),
        Err(PipelineError::UnknownResource("Custom_Fixer_Url".to_string()))
    );
}

#[test]
fn cache_files_have_their_names() {
    assert_eq!(CacheFile::Sources.name(), "tachi_sources.json");
    assert_eq!(CacheFile::ParserArchive.name(), "kotatsu_parsers.zip");
    assert_eq!(CacheFile::ParserCatalog.name(), "kotatsu_parsers.json");
    assert_eq!(CacheFile::Script.name(), "correction.luau");
}

#[test]
fn default_settings_hold_no_override() {
    let settings = AppSettings::default();
    assert_eq!(settings.custom_extensions_url, None);
    assert_eq!(settings.custom_parsers_url, None);
    assert_eq!(settings.custom_fixer_url, None);
    assert_eq!(settings.override_url("custom_parsers_url"), None);
}

#[test]
fn resolve_prefers_the_override() {
    let mut settings = AppSettings::default();
    assert_eq!(settings.resolve(&sources()), sources().default_url);
    settings.custom_extensions_url = Some("https://mirror.example/index.json".to_string());
    assert_eq!(settings.resolve(&sources()), "https://mirror.example/index.json");
    assert_eq!(settings.resolve(&parsers()), parsers().default_url);
    assert_eq!(settings.resolve(&script()), script().default_url);
}

#[test]
fn download_link_resolves_by_key() {
    let mut settings = AppSettings::default();
    settings.custom_fixer_url = Some("https://mirror.example/fix.luau".to_string());
    assert_eq!(settings.download_link("custom_fixer_url"), Ok("https://mirror.example/fix.luau".to_string()));
    assert_eq!(settings.download_link("custom_parsers_url"), Ok(parsers().default_url));
    assert_eq!(
        settings.download_link("nothing"),
        Err(PipelineError::UnknownResource("nothing".to_string()))
    );
}

#[test]
fn set_override_changes_one_resource() {
    let mut settings = AppSettings::default();
    assert!(settings.set_override("custom_parsers_url", Some("https://p.example/a.zip".to_string())));
    assert_eq!(settings.override_url("custom_parsers_url"), Some("https://p.example/a.zip".to_string()));
    assert_eq!(settings.override_url("custom_extensions_url"), None);
    assert_eq!(settings.override_url("custom_fixer_url"), None);
    assert!(settings.set_override("custom_parsers_url", None));
    assert_eq!(settings, AppSettings::default());
}

#[test]
fn set_override_of_an_unknown_key_changes_nothing() {
    let mut settings = AppSettings::default();
    settings.custom_extensions_url = Some("https://e.example".to_string());
    let before = settings.clone();
    assert!(!settings.set_override("theme", Some("dark".to_string())));
    assert_eq!(settings, before);
}
