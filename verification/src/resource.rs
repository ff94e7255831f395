//! The resources a conversion depends on: where each comes from, under which
//! name it is cached, and how it is shown. One fixed table, and the settings
//! that may replace a resource's address.

use vstd::prelude::*;

use crate::error::PipelineError;
use crate::text::{optional_text, same_text};

verus! {

/// One resource: the key it goes by in the settings, the address it is fetched
/// from unless the settings say otherwise, the name of its file in the cache,
/// and the title shown for it.
#[derive(Debug, Clone, PartialEq, Eq)]
pub struct ResourceDescriptor {
    pub key: String,
    pub default_url: String,
    pub cache_file_name: String,
    pub display_title: String,
}

/// A descriptor as four texts.
pub struct DescriptorView {
    pub key: Seq<char>,
    pub default_url: Seq<char>,
    pub cache_file_name: Seq<char>,
    pub display_title: Seq<char>,
}

impl View for ResourceDescriptor {
    type V = DescriptorView;

    open spec fn view(&self) -> DescriptorView {
        DescriptorView {
            key: self.key@,
            default_url: self.default_url@,
            cache_file_name: self.cache_file_name@,
            display_title: self.display_title@,
        }
    }
}

/// The catalog of sources.
pub open spec fn sources_descriptor() -> DescriptorView {
    DescriptorView {
        key: "custom_extensions_url"@,
        default_url: "https://github.com/keiyoushi/extensions/raw/refs/heads/repo/index.min.json"@,
        cache_file_name: "tachi_sources.json"@,
        display_title: "Tachiyomi Sources URL"@,
    }
}

/// The archive of parsers.
pub open spec fn parsers_descriptor() -> DescriptorView {
    DescriptorView {
        key: "custom_parsers_url"@,
        default_url: "https://github.com/KotatsuApp/kotatsu-parsers/archive/refs/heads/master.zip"@,
        cache_file_name: "kotatsu_parsers.zip"@,
        display_title: "Kotatsu Parsers URL"@,
    }
}

/// The correction script.
pub open spec fn script_descriptor() -> DescriptorView {
    DescriptorView {
        key: "custom_fixer_url"@,
        default_url: "https://raw.githubusercontent.com/phantomshift/nekotatsu/master/nekotatsu-core/src/correction.luau"@,
        cache_file_name: "correction.luau"@,
        display_title: "Fixer Script URL"@,
    }
}

/// The table of resources, in its one order.
pub open spec fn schema() -> Seq<DescriptorView> {
    seq![sources_descriptor(), parsers_descriptor(), script_descriptor()]
}

/// The name, in the cache, of the catalog that is derived from the archive of parsers.
pub open spec fn parser_catalog_file() -> Seq<char> {
    "kotatsu_parsers.json"@
}

/// A file of the cache.
#[derive(Debug, Clone, Copy, PartialEq, Eq, Structural)]
pub enum CacheFile {
    /// The catalog of sources.
    Sources,
    /// The archive of parsers, as downloaded.
    ParserArchive,
    /// The catalog of parsers, derived from the archive.
    ParserCatalog,
    /// The correction script.
    Script,
}

/// The name of a file of the cache.
pub open spec fn cache_file_name(file: CacheFile) -> Seq<char> {
    match file {
        CacheFile::Sources => sources_descriptor().cache_file_name,
        CacheFile::ParserArchive => parsers_descriptor().cache_file_name,
        CacheFile::ParserCatalog => parser_catalog_file(),
        CacheFile::Script => script_descriptor().cache_file_name,
    }
}

impl CacheFile {
    /// The name of this file in the cache.
    pub fn name(&self) -> (name: &'static str)
        ensures
            name@ == cache_file_name(*self),
    {
        match self {
            CacheFile::Sources => "tachi_sources.json",
            CacheFile::ParserArchive => "kotatsu_parsers.zip",
            CacheFile::ParserCatalog => "kotatsu_parsers.json",
            CacheFile::Script => "correction.luau",
        }
    }
}

/// The descriptors of a list, each as four texts.
pub open spec fn descriptor_views(descriptors: Seq<ResourceDescriptor>) -> Seq<DescriptorView> {
    descriptors.map_values(|d: ResourceDescriptor| d@)
}

/// The descriptor that goes by `key`, if the table has one.
pub open spec fn find(key: Seq<char>) -> Option<DescriptorView> {
    if key == sources_descriptor().key {
        Some(sources_descriptor())
    } else if key == parsers_descriptor().key {
        Some(parsers_descriptor())
    } else if key == script_descriptor().key {
        Some(script_descriptor())
    } else {
        None
    }
}

fn sources() -> (d: ResourceDescriptor)
    ensures
        d@ == sources_descriptor(),
{
    ResourceDescriptor {
        key: "custom_extensions_url".to_string(),
        default_url: "https://github.com/keiyoushi/extensions/raw/refs/heads/repo/index.min.json".to_string(),
        cache_file_name: "tachi_sources.json".to_string(),
        display_title: "Tachiyomi Sources URL".to_string(),
    }
}

fn parsers() -> (d: ResourceDescriptor)
    ensures
        d@ == parsers_descriptor(),
{
    ResourceDescriptor {
        key: "custom_parsers_url".to_string(),
        default_url: "https://github.com/KotatsuApp/kotatsu-parsers/archive/refs/heads/master.zip".to_string(),
        cache_file_name: "kotatsu_parsers.zip".to_string(),
        display_title: "Kotatsu Parsers URL".to_string(),
    }
}

fn script() -> (d: ResourceDescriptor)
    ensures
        d@ == script_descriptor(),
{
    ResourceDescriptor {
        key: "custom_fixer_url".to_string(),
        default_url: "https://raw.githubusercontent.com/phantomshift/nekotatsu/master/nekotatsu-core/src/correction.luau".to_string(),
        cache_file_name: "correction.luau".to_string(),
        display_title: "Fixer Script URL".to_string(),
    }
}

/// The descriptors of all resources, always the same and in the same order.
pub fn iterate() -> (all: Vec<ResourceDescriptor>)
    ensures
        descriptor_views(all@) == schema(),
{
    let mut all: Vec<ResourceDescriptor> = Vec::new();
    all.push(sources());
    all.push(parsers());
    all.push(script());
    assert(descriptor_views(all@) =~= schema());
    all
}

/// The descriptor that goes by `key`, or `UnknownResource` with the key where
/// the table has none.
pub fn lookup(key: &str) -> (r: Result<ResourceDescriptor, PipelineError>)
    ensures
        match r {
            Ok(d) => find(key@) == Some(d@),
            Err(e) => find(key@) is None && (e matches PipelineError::UnknownResource(k) && k@
                == key@),
        },
{
    if same_text(key, "custom_extensions_url") {
        Ok(sources())
    } else if same_text(key, "custom_parsers_url") {
        Ok(parsers())
    } else if same_text(key, "custom_fixer_url") {
        Ok(script())
    } else {
        Err(PipelineError::UnknownResource(key.to_string()))
    }
}

/// The addresses the user put in place of the default ones, by resource.
#[derive(Debug, Clone, PartialEq, Eq)]
pub struct AppSettings {
    pub custom_extensions_url: Option<String>,
    pub custom_parsers_url: Option<String>,
    pub custom_fixer_url: Option<String>,
}

impl Default for AppSettings {
    fn default() -> (settings: Self)
        ensures
            settings.custom_extensions_url is None,
            settings.custom_parsers_url is None,
            settings.custom_fixer_url is None,
    {
        AppSettings { custom_extensions_url: None, custom_parsers_url: None, custom_fixer_url: None }
    }
}

impl AppSettings {
    /// The address that takes the place of the default one of the resource
    /// `key`; none where the settings hold none or the table has no such key.
    pub open spec fn override_of(self, key: Seq<char>) -> Option<Seq<char>> {
        if key == sources_descriptor().key {
            optional_text(self.custom_extensions_url)
        } else if key == parsers_descriptor().key {
            optional_text(self.custom_parsers_url)
        } else if key == script_descriptor().key {
            optional_text(self.custom_fixer_url)
        } else {
            None
        }
    }

    /// The address a resource is fetched from: the one the settings hold for
    /// it, else its default.
    pub open spec fn resolved_url(self, descriptor: DescriptorView) -> Seq<char> {
        match self.override_of(descriptor.key) {
            Some(url) => url,
            None => descriptor.default_url,
        }
    }

    /// The address the settings hold for the resource `key`, if any.
    pub fn override_url(&self, key: &str) -> (url: Option<String>)
        ensures
            optional_text(url) == self.override_of(key@),
    {
        if same_text(key, "custom_extensions_url") {
            self.custom_extensions_url.clone()
        } else if same_text(key, "custom_parsers_url") {
            self.custom_parsers_url.clone()
        } else if same_text(key, "custom_fixer_url") {
            self.custom_fixer_url.clone()
        } else {
            None
        }
    }

    /// Puts `value` in place for the resource `key`, or takes the override away
    /// where `value` is none. An unknown key changes nothing, and the result
    /// says whether the key was known.
    pub fn set_override(&mut self, key: &str, value: Option<String>) -> (known: bool)
        ensures
            known == find(key@) is Some,
            known ==> final(self).override_of(key@) == optional_text(value),
            forall|other: Seq<char>|
                other != key@ ==> final(self).override_of(other) == old(self).override_of(other),
            !known ==> *final(self) == *old(self),
    {
        proof {
            lemma_keys_distinct();
        }
        if same_text(key, "custom_extensions_url") {
            self.custom_extensions_url = value;
            true
        } else if same_text(key, "custom_parsers_url") {
            self.custom_parsers_url = value;
            true
        } else if same_text(key, "custom_fixer_url") {
            self.custom_fixer_url = value;
            true
        } else {
            false
        }
    }

    /// The address to fetch the resource of `descriptor` from.
    pub fn resolve(&self, descriptor: &ResourceDescriptor) -> (url: String)
        ensures
            url@ == self.resolved_url(descriptor@),
    {
        match self.override_url(descriptor.key.as_str()) {
            Some(url) => url,
            None => descriptor.default_url.clone(),
        }
    }

    /// The address to fetch the resource `key` from, or `UnknownResource`
    /// where the table has no such key.
    pub fn download_link(&self, key: &str) -> (r: Result<String, PipelineError>)
        ensures
            match r {
                Ok(url) => find(key@) matches Some(d) && url@ == self.resolved_url(d),
                Err(e) => find(key@) is None && (e matches PipelineError::UnknownResource(k) && k@
                    == key@),
            },
    {
        match lookup(key) {
            Ok(descriptor) => Ok(self.resolve(&descriptor)),
            Err(e) => Err(e),
        }
    }
}

/// No two resources go by the same key.
pub proof fn lemma_keys_distinct()
    ensures
        forall|i: int, j: int|
            0 <= i < j < schema().len() ==> (#[trigger] schema()[i]).key != (
            #[trigger] schema()[j]).key,
{
    reveal_strlit("custom_extensions_url");
    reveal_strlit("custom_parsers_url");
    reveal_strlit("custom_fixer_url");
    assert("custom_extensions_url"@.len() == 21);
    assert("custom_parsers_url"@.len() == 18);
    assert("custom_fixer_url"@.len() == 16);
}

/// No two resources share a file in the cache, and none takes the file of the
/// derived parser catalog.
pub proof fn lemma_cache_files_distinct()
    ensures
        forall|i: int, j: int|
            0 <= i < j < schema().len() ==> (#[trigger] schema()[i]).cache_file_name != (
            #[trigger] schema()[j]).cache_file_name,
        forall|i: int|
            0 <= i < schema().len() ==> (#[trigger] schema()[i]).cache_file_name
                != parser_catalog_file(),
{
    reveal_strlit("tachi_sources.json");
    reveal_strlit("kotatsu_parsers.zip");
    reveal_strlit("correction.luau");
    reveal_strlit("kotatsu_parsers.json");
    assert("tachi_sources.json"@.len() == 18);
    assert("kotatsu_parsers.zip"@.len() == 19);
    assert("correction.luau"@.len() == 15);
    assert("kotatsu_parsers.json"@.len() == 20);
}

/// Two readings of the table are the same list: the same descriptors in the
/// same order.
pub proof fn lemma_iterate_is_stable(first: Seq<ResourceDescriptor>, second: Seq<ResourceDescriptor>)
    requires
        descriptor_views(first) == schema(),
        descriptor_views(second) == schema(),
    ensures
        first.len() == second.len(),
        forall|i: int| 0 <= i < first.len() ==> (#[trigger] first[i])@ == second[i]@,
{
    assert(descriptor_views(first).len() == first.len());
    assert(descriptor_views(second).len() == second.len());
    assert forall|i: int| 0 <= i < first.len() implies (#[trigger] first[i])@ == second[i]@ by {
        assert(descriptor_views(first)[i] == first[i]@);
        assert(descriptor_views(second)[i] == second[i]@);
    }
}

/// Every key of the table finds its own descriptor.
pub proof fn lemma_find_covers_schema()
    ensures
        forall|i: int|
            0 <= i < schema().len() ==> find((#[trigger] schema()[i]).key) == Some(schema()[i]),
        forall|key: Seq<char>|
            (#[trigger] find(key)) matches Some(d) ==> d.key == key && schema().contains(d),
{
    lemma_keys_distinct();
    assert(schema()[0] == sources_descriptor());
    assert(schema()[1] == parsers_descriptor());
    assert(schema()[2] == script_descriptor());
}

} // verus!
