//! Configuration of the proxy, its defaults, and the allow lists it holds.
use vstd::prelude::*;

use crate::text::same_text;

verus! {

/// How long clients may keep an answer.
#[derive(Debug, Clone, Copy, PartialEq, Eq, Structural)]
pub struct CacheConfig {
    /// Seconds.
    pub max_age: u32,
}

/// Settings of the profile lookup.
#[derive(Debug, Clone, Copy)]
pub struct TwitterConfig {
    pub cache: CacheConfig,
}

/// An upstream service that objects may be taken from.
#[derive(Debug)]
pub struct Service {
    pub name: String,
    pub endpoint: String,
    pub cache: Option<CacheConfig>,
}

/// What a service is, with its texts as character sequences.
#[verifier::ext_equal]
pub struct ServiceView {
    pub name: Seq<char>,
    pub endpoint: Seq<char>,
    pub cache: Option<CacheConfig>,
}

impl View for Service {
    type V = ServiceView;

    open spec fn view(&self) -> ServiceView {
        ServiceView { name: self.name@, endpoint: self.endpoint@, cache: self.cache }
    }
}

impl DeepView for Service {
    type V = ServiceView;

    open spec fn deep_view(&self) -> ServiceView {
        self@
    }
}

/// The settings of the whole server.
#[derive(Debug, Clone)]
pub struct AppConfig {
    pub port: u16,
    pub workers: usize,
    pub log_level: String,
    /// Seconds that an upstream service has to answer.
    pub req_timeout: u64,
    pub max_body_size_bytes: usize,
    pub user_agent: String,
    pub health_endpoint: String,
    pub storage_path: String,
    pub twitter: Option<TwitterConfig>,
    pub services: Vec<Service>,
    /// Objects that are never processed.
    pub skip_list: Option<Vec<String>>,
    /// Widths that may be asked for; every width if absent.
    pub allowed_sizes: Option<Vec<u32>>,
}

/// The settings, with texts and lists as sequences.
#[verifier::ext_equal]
pub struct AppConfigView {
    pub port: u16,
    pub workers: usize,
    pub log_level: Seq<char>,
    pub req_timeout: u64,
    pub max_body_size_bytes: usize,
    pub user_agent: Seq<char>,
    pub health_endpoint: Seq<char>,
    pub storage_path: Seq<char>,
    pub twitter: Option<TwitterConfig>,
    pub services: Seq<ServiceView>,
    pub skip_list: Option<Seq<Seq<char>>>,
    pub allowed_sizes: Option<Seq<u32>>,
}

impl View for AppConfig {
    type V = AppConfigView;

    open spec fn view(&self) -> AppConfigView {
        AppConfigView {
            port: self.port,
            workers: self.workers,
            log_level: self.log_level@,
            req_timeout: self.req_timeout,
            max_body_size_bytes: self.max_body_size_bytes,
            user_agent: self.user_agent@,
            health_endpoint: self.health_endpoint@,
            storage_path: self.storage_path@,
            twitter: self.twitter,
            services: self.services.deep_view(),
            skip_list: self.skip_list.deep_view(),
            allowed_sizes: self.allowed_sizes.deep_view(),
        }
    }
}

/// What a client may add to a request for an image.
#[derive(Debug, Clone)]
pub struct Params {
    /// The width to scale down to; absent or zero for the object as it is.
    pub width: Option<u32>,
    /// Ask the service again even if the object is in storage.
    pub force: Option<bool>,
    /// Which scaler to use on PNG images.
    pub engine: Option<u32>,
    /// A path below the image segment.
    pub path: Option<String>,
}

/// What a client asks for, with the path as a character sequence.
pub struct ParamsView {
    pub width: Option<u32>,
    pub force: Option<bool>,
    pub engine: Option<u32>,
    pub path: Option<Seq<char>>,
}

impl View for Params {
    type V = ParamsView;

    open spec fn view(&self) -> ParamsView {
        ParamsView {
            width: self.width,
            force: self.force,
            engine: self.engine,
            path: self.path.deep_view(),
        }
    }
}

impl ParamsView {
    /// The width asked for; zero for the object as it is.
    pub open spec fn scale(self) -> u32 {
        match self.width {
            Some(width) => width,
            None => 0,
        }
    }
}

/// The age that stands where none is configured: one year.
pub open spec fn default_max_age() -> u32 {
    31536000
}

impl ServiceView {
    /// The age that answers with objects of this service carry.
    pub open spec fn max_age(self) -> u32 {
        match self.cache {
            Some(cache) => cache.max_age,
            None => default_max_age(),
        }
    }
}

/// The first of the services that has the given name.
pub open spec fn service_named(services: Seq<ServiceView>, name: Seq<char>) -> Option<ServiceView>
    decreases services.len(),
{
    if services.len() == 0 {
        None
    } else if services[0].name == name {
        Some(services[0])
    } else {
        service_named(services.skip(1), name)
    }
}

impl AppConfigView {
    /// Whether the width may be asked for. Without a list every width may be; with one, a width
    /// on it, and no width at all unless the list is empty.
    pub open spec fn allows_size(self, scale: u32) -> bool {
        match self.allowed_sizes {
            Some(sizes) => sizes.contains(scale) || (scale == 0 && sizes.len() > 0),
            None => true,
        }
    }

    /// Whether the object is never processed.
    pub open spec fn skips(self, name: Seq<char>) -> bool {
        match self.skip_list {
            Some(names) => names.contains(name),
            None => false,
        }
    }

    /// The age that answers of the profile lookup carry.
    pub open spec fn twitter_max_age(self) -> u32 {
        match self.twitter {
            Some(twitter) => twitter.cache.max_age,
            None => default_max_age(),
        }
    }
}

/// The configuration file: the given one, or `config.toml` in the working directory.
pub open spec fn config_path_of(given: Option<Seq<char>>, directory: Seq<char>) -> Seq<char> {
    match given {
        Some(path) => path,
        None => directory + "/config.toml"@,
    }
}

/// The configuration file: the given one, or `config.toml` in the working directory.
pub fn config_path(given: Option<String>, directory: &str) -> (path: String)
    ensures
        path@ == config_path_of(given.deep_view(), directory@),
{
    match given {
        Some(path) => path,
        None => {
            let mut path = directory.to_owned();
            path.append("/config.toml");
            path
        },
    }
}

impl Default for CacheConfig {
    fn default() -> (cache: Self)
        ensures
            cache.max_age == default_max_age(),
    {
        CacheConfig { max_age: 31536000 }
    }
}

impl Clone for Service {
    fn clone(&self) -> (copy: Self)
        ensures
            copy@ == self@,
    {
        Service { name: self.name.clone(), endpoint: self.endpoint.clone(), cache: self.cache }
    }
}

impl Default for Service {
    fn default() -> (service: Self)
        ensures
            service.name@ == "ipfs"@,
            service.endpoint@ == "https://ipfs.io/ipfs"@,
            service.cache == Some(CacheConfig { max_age: default_max_age() }),
    {
        Service {
            name: "ipfs".to_owned(),
            endpoint: "https://ipfs.io/ipfs".to_owned(),
            cache: Some(CacheConfig::default()),
        }
    }
}

impl Service {
    /// The age that answers with objects of this service carry.
    pub fn max_age(&self) -> (age: u32)
        ensures
            age == self@.max_age(),
    {
        match self.cache {
            Some(cache) => cache.max_age,
            None => CacheConfig::default().max_age,
        }
    }
}

impl Default for AppConfig {
    fn default() -> (config: Self)
        ensures
            config.port == 3030,
            config.workers == 8,
            config.req_timeout == 15,
            config.skip_list is None,
            config.max_body_size_bytes == 60000000,
            config.log_level@ == "debug"@,
            config.storage_path@ == "storage"@,
            config.allowed_sizes is None,
            config.twitter is None,
            config.health_endpoint@ == "/health"@,
            config.user_agent@ == "media_proxy/0.1.0"@,
            config@.services =~= seq![
                (ServiceView {
                    name: "ipfs"@,
                    endpoint: "https://ipfs.io/ipfs"@,
                    cache: Some(CacheConfig { max_age: default_max_age() }),
                }),
            ],
    {
        let mut services: Vec<Service> = Vec::new();
        services.push(Service::default());
        AppConfig {
            port: 3030,
            workers: 8,
            req_timeout: 15,
            skip_list: None,
            max_body_size_bytes: 60000000,
            log_level: "debug".to_owned(),
            storage_path: "storage".to_owned(),
            allowed_sizes: None,
            twitter: None,
            health_endpoint: "/health".to_owned(),
            user_agent: "media_proxy/0.1.0".to_owned(),
            services,
        }
    }
}

impl AppConfig {
    /// The first service on the allow list that has the given name.
    pub fn find_service(&self, name: &str) -> (found: Option<&Service>)
        ensures
            found.deep_view() == service_named(self@.services, name@),
    {
        let mut i: usize = 0;
        assert(self@.services.skip(0) =~= self@.services);
        while i < self.services.len()
            invariant
                i <= self.services.len(),
                self@.services.len() == self.services.len(),
                service_named(self@.services, name@) == service_named(
                    self@.services.skip(i as int),
                    name@,
                ),
            decreases self.services.len() - i,
        {
            let service = &self.services[i];
            assert(self@.services.skip(i as int)[0] == service@);
            if same_text(service.name.as_str(), name) {
                return Some(service);
            }
            assert(self@.services.skip(i as int).skip(1) =~= self@.services.skip(i + 1));
            i = i + 1;
        }
        None
    }

    /// Whether the width may be asked for.
    pub fn allows_size(&self, scale: u32) -> (allowed: bool)
        ensures
            allowed == self@.allows_size(scale),
    {
        let Some(sizes) = &self.allowed_sizes else {
            return true;
        };
        let ghost list = sizes.deep_view();
        assert(self@.allowed_sizes == Some(list));
        let mut i: usize = 0;
        while i < sizes.len()
            invariant
                self@.allowed_sizes == Some(list),
                list == sizes.deep_view(),
                i <= sizes.len(),
                forall|j: int| 0 <= j < i ==> list[j] != scale,
                i > 0 ==> scale != 0,
            decreases sizes.len() - i,
        {
            assert(list[i as int] == sizes[i as int]);
            if sizes[i] == scale || scale == 0 {
                return true;
            }
            i = i + 1;
        }
        false
    }

    /// Whether the object is never processed.
    pub fn skips(&self, name: &str) -> (skipped: bool)
        ensures
            skipped == self@.skips(name@),
    {
        let Some(names) = &self.skip_list else {
            return false;
        };
        let ghost list = names.deep_view();
        assert(self@.skip_list == Some(list));
        let mut i: usize = 0;
        while i < names.len()
            invariant
                self@.skip_list == Some(list),
                list == names.deep_view(),
                i <= names.len(),
                forall|j: int| 0 <= j < i ==> list[j] != name@,
            decreases names.len() - i,
        {
            assert(list[i as int] == names[i as int]@);
            if same_text(names[i].as_str(), name) {
                return true;
            }
            i = i + 1;
        }
        false
    }

    /// The age that answers of the profile lookup carry.
    pub fn twitter_max_age(&self) -> (age: u32)
        ensures
            age == self@.twitter_max_age(),
    {
        match self.twitter {
            Some(twitter) => twitter.cache.max_age,
            None => CacheConfig::default().max_age,
        }
    }
}

/// A service is found exactly when one with that name is on the list, and what is found has the
/// name and comes before every other that does.
pub proof fn service_named_is_first(services: Seq<ServiceView>, name: Seq<char>)
    ensures
        service_named(services, name) is None <==> (forall|i: int|
            0 <= i < services.len() ==> services[i].name != name),
        service_named(services, name) is Some ==> exists|i: int|
            0 <= i < services.len() && services[i] == service_named(services, name)->0
                && services[i].name == name && forall|j: int|
                0 <= j < i ==> services[j].name != name,
    decreases services.len(),
{
    if services.len() > 0 && services[0].name != name {
        let rest = services.skip(1);
        service_named_is_first(rest, name);
        if service_named(rest, name) is None {
            assert forall|i: int| 0 <= i < services.len() implies services[i].name != name by {
                if i > 0 {
                    assert(rest[i - 1] == services[i]);
                }
            }
        } else {
            let k = choose|i: int|
                0 <= i < rest.len() && rest[i] == service_named(rest, name)->0 && rest[i].name
                    == name && forall|j: int| 0 <= j < i ==> rest[j].name != name;
            assert(services[k + 1] == rest[k]);
            assert forall|j: int| 0 <= j < k + 1 implies services[j].name != name by {
                if j > 0 {
                    assert(rest[j - 1] == services[j]);
                }
            }
        }
    } else if services.len() > 0 {
        assert(services[0].name == name);
    }
}

/// The first service of a name, by the list as it stands in the settings.
pub(crate) proof fn first_service_by_list(cfg: &AppConfig, name: Seq<char>)
    ensures
        service_named(cfg@.services, name) is None <==> forall|i: int|
            0 <= i < cfg.services@.len() ==> (#[trigger] cfg.services@[i]).name@ != name,
        service_named(cfg@.services, name) matches Some(found) ==> found.name == name && exists|
            i: int,
        |
            0 <= i < cfg.services@.len() && (#[trigger] cfg.services@[i]).name@ == name
                && found.endpoint == cfg.services@[i].endpoint@ && found.cache
                == cfg.services@[i].cache && forall|j: int|
                0 <= j < i ==> (#[trigger] cfg.services@[j]).name@ != name,
{
    let list = cfg@.services;
    assert(list.len() == cfg.services@.len());
    assert forall|i: int| 0 <= i < list.len() implies (#[trigger] list[i]).name
        == cfg.services@[i].name@ && list[i].endpoint == cfg.services@[i].endpoint@
        && list[i].cache == cfg.services@[i].cache by {}
    service_named_is_first(list, name);
    if let Some(found) = service_named(list, name) {
        let i = choose|i: int|
            0 <= i < list.len() && list[i] == found && list[i].name == name && forall|j: int|
                0 <= j < i ==> list[j].name != name;
        assert(cfg.services@[i].name@ == name);
        assert forall|j: int| 0 <= j < i implies (#[trigger] cfg.services@[j]).name@ != name by {
            assert(list[j].name == cfg.services@[j].name@);
        }
    } else {
        assert forall|i: int| 0 <= i < cfg.services@.len() implies (
        #[trigger] cfg.services@[i]).name@ != name by {
            assert(list[i].name == cfg.services@[i].name@);
        }
    }
}

/// The service that is found for a name is the first on the list that has it.
pub proof fn services_are_found_by_name(cfg: &AppConfig, name: &str, found: Option<&Service>)
    requires
        call_ensures(AppConfig::find_service, (cfg, name), found),
    ensures
        found is None <==> forall|i: int|
            0 <= i < cfg.services@.len() ==> (#[trigger] cfg.services@[i]).name@ != name@,
        found matches Some(service) ==> service.name@ == name@ && exists|i: int|
            0 <= i < cfg.services@.len() && (#[trigger] cfg.services@[i]).name@ == name@
                && service.endpoint@ == cfg.services@[i].endpoint@ && service.cache
                == cfg.services@[i].cache && forall|j: int|
                0 <= j < i ==> (#[trigger] cfg.services@[j]).name@ != name@,
{
    first_service_by_list(cfg, name@);
}

/// Widths that may be asked for, by the list as it stands in the settings.
pub(crate) proof fn allowed_by_list(cfg: &AppConfig, width: u32)
    ensures
        cfg.allowed_sizes is None ==> cfg@.allows_size(width),
        cfg.allowed_sizes matches Some(list) ==> (cfg@.allows_size(width) <==> exists|i: int|
            0 <= i < list@.len() && ((#[trigger] list@[i]) == width || width == 0)),
{
    if let Some(list) = cfg.allowed_sizes {
        let sizes = list.deep_view();
        assert(cfg@.allowed_sizes == Some(sizes));
        assert(sizes =~= list@);
        if sizes.contains(width) {
            let i = choose|i: int| 0 <= i < sizes.len() && sizes[i] == width;
            assert(list@[i] == width);
        }
        if width == 0 && sizes.len() > 0 {
            assert(list@[0] == sizes[0]);
        }
    }
}

/// Every width may be asked for where there is no list of them. Where there is one, a width may
/// that is on it, and none at all may unless the list is empty.
pub proof fn widths_are_allowed_by_the_list(cfg: &AppConfig, width: u32, allowed: bool)
    requires
        call_ensures(AppConfig::allows_size, (cfg, width), allowed),
    ensures
        cfg.allowed_sizes is None ==> allowed,
        cfg.allowed_sizes matches Some(list) ==> (allowed <==> if width == 0 {
            list@.len() > 0
        } else {
            exists|i: int| 0 <= i < list@.len() && #[trigger] list@[i] == width
        }),
{
    allowed_by_list(cfg, width);
    if let Some(list) = cfg.allowed_sizes {
        if list@.len() > 0 {
            let first = list@[0];
        }
    }
}

/// Objects that are never processed, by the list as it stands in the settings.
pub(crate) proof fn skipped_by_list(cfg: &AppConfig, name: Seq<char>)
    ensures
        cfg@.skips(name) <==> (cfg.skip_list matches Some(list) && exists|i: int|
            0 <= i < list@.len() && #[trigger] list@[i]@ == name),
{
    if let Some(list) = cfg.skip_list {
        let names = list.deep_view();
        assert(cfg@.skip_list == Some(names));
        assert(names.len() == list@.len());
        assert forall|i: int| 0 <= i < list@.len() implies names[i] == #[trigger] list@[i]@ by {}
        if names.contains(name) {
            let i = choose|i: int| 0 <= i < names.len() && names[i] == name;
            assert(list@[i]@ == name);
        }
        if exists|i: int| 0 <= i < list@.len() && #[trigger] list@[i]@ == name {
            let i = choose|i: int| 0 <= i < list@.len() && #[trigger] list@[i]@ == name;
            assert(names[i] == name);
        }
    }
}

/// An object is never processed exactly when its name is on the list of those to skip.
pub proof fn objects_are_skipped_by_the_list(cfg: &AppConfig, name: &str, skipped: bool)
    requires
        call_ensures(AppConfig::skips, (cfg, name), skipped),
    ensures
        skipped <==> (cfg.skip_list matches Some(list) && exists|i: int|
            0 <= i < list@.len() && #[trigger] list@[i]@ == name@),
{
    skipped_by_list(cfg, name@);
}

/// Answers are kept for as long as is configured, for objects by their service and for profiles
/// by the lookup, and for a year of 365 days where nothing is.
pub proof fn ages_are_as_configured(service: &Service, cfg: &AppConfig, age: u32, profile_age: u32)
    requires
        call_ensures(Service::max_age, (service,), age),
        call_ensures(AppConfig::twitter_max_age, (cfg,), profile_age),
    ensures
        service.cache matches Some(cache) ==> age == cache.max_age,
        service.cache is None ==> age == 365 * 24 * 60 * 60,
        cfg.twitter matches Some(twitter) ==> profile_age == twitter.cache.max_age,
        cfg.twitter is None ==> profile_age == 365 * 24 * 60 * 60,
{
}

/// The settings come from the file that is given, or else from `config.toml` in the directory.
pub proof fn settings_come_from_the_given_file(
    given: Option<String>,
    directory: &str,
    path: String,
)
    requires
        call_ensures(config_path, (given, directory), path),
    ensures
        given matches Some(file) ==> path@ == file@,
        given is None ==> path@ == directory@ + "/config.toml"@,
{
    if let Some(file) = given {
        assert(given.deep_view() == Some(file@));
    }
}

/// What stands where nothing is configured.
pub proof fn settings_have_defaults(cache: CacheConfig, service: Service, cfg: AppConfig)
    requires
        call_ensures(<CacheConfig as Default>::default, (), cache),
        call_ensures(<Service as Default>::default, (), service),
        call_ensures(<AppConfig as Default>::default, (), cfg),
    ensures
        cache.max_age == 365 * 24 * 60 * 60,
        service.name@ == "ipfs"@,
        service.endpoint@ == "https://ipfs.io/ipfs"@,
        service.cache == Some(cache),
        cfg.port == 3030,
        cfg.workers == 8,
        cfg.log_level@ == "debug"@,
        cfg.req_timeout == 15,
        cfg.max_body_size_bytes == 60 * 1000 * 1000,
        cfg.user_agent@ == "media_proxy/0.1.0"@,
        cfg.health_endpoint@ == "/health"@,
        cfg.storage_path@ == "storage"@,
        cfg.twitter is None,
        cfg.skip_list is None,
        cfg.allowed_sizes is None,
        cfg.services@.len() == 1,
        cfg.services@[0].name@ == service.name@,
        cfg.services@[0].endpoint@ == service.endpoint@,
        cfg.services@[0].cache == service.cache,
{
    assert(cfg@.services[0] == cfg.services@[0]@);
}

} // verus!
