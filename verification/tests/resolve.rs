use std::collections::HashMap;

use concatter::bundle::{assemble_bundle, response_body};
use concatter::query::{parse_params, QueryParam};
use concatter::resolve::{Command, LoadedComponent, Reply, Resolution, Settings, Step};

/// What stands in for the file system and the metadata service.
struct World {
    /// Override directories by component name, each with its files.
    overrides: HashMap<String, HashMap<String, String>>,
    /// What each URL brings, one entry per request; a URL that runs out of
    /// entries, or has none, fails.
    remote: HashMap<String, Vec<Option<String>>>,
    cache: chashmap::CHashMap<String, String>,
    log: Vec<Command>,
}

impl World {
    fn new() -> World {
        World {
            overrides: HashMap::new(),
            remote: HashMap::new(),
            cache: chashmap::CHashMap::new(),
            log: Vec::new(),
        }
    }

    fn serve(&mut self, url: &str, text: &str) {
        self.remote.entry(String::from(url)).or_default().push(Some(String::from(text)));
    }

    fn fail(&mut self, url: &str, times: usize) {
        for _ in 0..times {
            self.remote.entry(String::from(url)).or_default().push(None);
        }
    }

    fn override_file(&mut self, component: &str, file: &str, text: &str) {
        self.overrides
            .entry(String::from(component))
            .or_default()
            .insert(String::from(file), String::from(text));
    }

    fn perform(&mut self, command: &Command) -> Reply {
        self.log.push(command.clone());
        match command {
            Command::ProbeOverride { name } => Reply::Exists(self.overrides.contains_key(name)),
            Command::ReadOverride { name, file } => {
                Reply::Read(self.overrides.get(name).and_then(|files| files.get(file)).cloned())
            }
            Command::Fetch { url } => {
                let queue = self.remote.entry(url.clone()).or_default();
                if queue.is_empty() {
                    Reply::Fetched(None)
                } else {
                    Reply::Fetched(queue.remove(0))
                }
            }
            Command::Wait { .. } => Reply::Waited,
            Command::Lookup { .. } | Command::Store { .. } => {
                panic!("a settled step asks nothing of the cache")
            }
        }
    }

    fn resolve(&mut self, settings: &Settings, request: &QueryParam) -> Option<LoadedComponent> {
        let mut step = Resolution::begin(settings, request).settle(settings, &self.cache);
        loop {
            match step {
                Step::Ask { command, next } => {
                    let reply = self.perform(&command);
                    step = next.step(settings, reply).settle(settings, &self.cache);
                }
                Step::Done(component) => return component,
            }
        }
    }

    fn fetches(&self) -> Vec<String> {
        self.log
            .iter()
            .filter_map(|command| match command {
                Command::Fetch { url } => Some(url.clone()),
                _ => None,
            })
            .collect()
    }

    fn waits(&self) -> Vec<u64> {
        self.log
            .iter()
            .filter_map(|command| match command {
                Command::Wait { millis } => Some(*millis),
                _ => None,
            })
            .collect()
    }
}

fn settings() -> Settings {
    Settings {
        server: String::from("ds:8383"),
        use_cache: false,
        cache_exclude: Vec::new(),
        override_root: None,
        strip_logging: false,
    }
}

fn request(name: &str, version: &str) -> QueryParam {
    QueryParam { name: String::from(name), value: Some(String::from(version)) }
}

fn component(name: &str, version: &str, code: &str) -> LoadedComponent {
    LoadedComponent {
        name: String::from(name),
        version: String::from(version),
        code: String::from(code),
    }
}

fn manifest_url(name: &str, version: &str) -> String {
    format!("http://ds:8383/components/{}/{}/files/diversity.json", name, version)
}

fn file_url(name: &str, version: &str, file: &str) -> String {
    format!("http://ds:8383/components/{}/{}/files/{}", name, version, file)
}

const LITERAL: &str = "console.log('Putting obj into cache by path', pth);";

#[test]
fn request_without_version_is_dropped() {
    let mut world = World::new();
    let dropped = world.resolve(&settings(), &QueryParam { name: String::from("a"), value: None });
    assert_eq!(dropped, None);
    assert!(world.log.is_empty());
}

#[test]
fn query_with_one_name_and_no_version_gives_the_empty_body() {
    let mut world = World::new();
    let params = parse_params(&String::from("/?a"));
    let resolved = params.map(|list| {
        list.iter().map(|param| world.resolve(&settings(), param)).collect::<Vec<_>>()
    });
    assert_eq!(response_body(&resolved), "");
}

#[test]
fn query_without_pairs_gives_no_params() {
    let mut world = World::new();
    for url in ["/", "/index.html", "/?", "/?=1&="] {
        let params = parse_params(&String::from(url));
        let resolved = params.map(|list| {
            list.iter().map(|param| world.resolve(&settings(), param)).collect::<Vec<_>>()
        });
        assert_eq!(response_body(&resolved), "No params");
    }
}

#[test]
fn two_remote_components_are_bundled_in_request_order() {
    let mut world = World::new();
    world.serve(&manifest_url("a", "1"), "{\"script\":\"a.js\"}");
    world.serve(&file_url("a", "1", "a.js"), "codeA");
    world.serve(&manifest_url("b", "2"), "{\"script\":[\"b.js\"]}");
    world.serve(&file_url("b", "2", "b.js"), "codeB");
    let params = parse_params(&String::from("/?a=1&b=2")).unwrap();
    let resolved: Vec<_> = params.iter().map(|param| world.resolve(&settings(), param)).collect();
    assert_eq!(
        resolved,
        vec![Some(component("a", "1", "codeA")), Some(component("b", "2", "codeB"))]
    );
    assert_eq!(assemble_bundle(&resolved), "BEGIN a\ncodeA\nEND a\n\nBEGIN b\ncodeB\nEND b\n\n");
}

#[test]
fn bundle_order_does_not_depend_on_the_order_of_resolution() {
    let mut world = World::new();
    for (name, code) in [("a", "codeA"), ("b", "codeB"), ("c", "codeC")] {
        world.serve(&manifest_url(name, "1"), "{\"script\":\"x.js\"}");
        world.serve(&file_url(name, "1", "x.js"), code);
    }
    let params = parse_params(&String::from("/?a=1&b=1&c=1")).unwrap();
    let mut resolved: Vec<Option<LoadedComponent>> = vec![None, None, None];
    for position in [2, 0, 1] {
        resolved[position] = world.resolve(&settings(), &params[position]);
    }
    assert_eq!(
        assemble_bundle(&resolved),
        "BEGIN a\ncodeA\nEND a\n\nBEGIN b\ncodeB\nEND b\n\nBEGIN c\ncodeC\nEND c\n\n"
    );
}

#[test]
fn failed_component_leaves_the_others_in_the_bundle() {
    let mut world = World::new();
    world.serve(&manifest_url("b", "2"), "{\"script\":\"b.js\"}");
    world.serve(&file_url("b", "2", "b.js"), "codeB");
    let params = parse_params(&String::from("/?a=1&b=2&c")).unwrap();
    let resolved: Vec<_> = params.iter().map(|param| world.resolve(&settings(), param)).collect();
    assert_eq!(assemble_bundle(&resolved), "BEGIN b\ncodeB\nEND b\n\n");
}

#[test]
fn single_string_manifest_resolves_as_the_one_element_list() {
    let mut one = World::new();
    one.serve(&manifest_url("a", "1"), "{\"script\":\"x.js\"}");
    one.serve(&file_url("a", "1", "x.js"), "code");
    let mut list = World::new();
    list.serve(&manifest_url("a", "1"), "{\"script\":[\"x.js\"]}");
    list.serve(&file_url("a", "1", "x.js"), "code");
    let from_one = one.resolve(&settings(), &request("a", "1"));
    let from_list = list.resolve(&settings(), &request("a", "1"));
    assert_eq!(from_one, from_list);
    assert_eq!(from_one, Some(component("a", "1", "code")));
    assert_eq!(one.log, list.log);
}

#[test]
fn remote_files_are_fetched_and_joined_in_manifest_order() {
    let mut world = World::new();
    world.serve(&manifest_url("a", "1"), "{\"script\":[\"z.js\",\"dir/a.js\",\"m.js\"]}");
    world.serve(&file_url("a", "1", "z.js"), "Z;");
    world.serve(&file_url("a", "1", "dir/a.js"), "A;");
    world.serve(&file_url("a", "1", "m.js"), "M;");
    assert_eq!(world.resolve(&settings(), &request("a", "1")), Some(component("a", "1", "Z;A;M;")));
    assert_eq!(
        world.fetches(),
        vec![
            manifest_url("a", "1"),
            file_url("a", "1", "z.js"),
            file_url("a", "1", "dir/a.js"),
            file_url("a", "1", "m.js"),
        ]
    );
    assert!(world.waits().is_empty());
}

#[test]
fn manifest_that_never_arrives_is_asked_for_ten_times() {
    let mut world = World::new();
    assert_eq!(world.resolve(&settings(), &request("a", "1")), None);
    assert_eq!(world.fetches(), vec![manifest_url("a", "1"); 10]);
    assert_eq!(world.waits(), vec![100; 9]);
}

#[test]
fn a_wait_stands_between_any_two_attempts() {
    let mut world = World::new();
    world.resolve(&settings(), &request("a", "1"));
    for pair in world.log.windows(2) {
        if let (Command::Fetch { .. }, next) = (&pair[0], &pair[1]) {
            assert_eq!(*next, Command::Wait { millis: 100 });
        }
        if let (Command::Wait { .. }, next) = (&pair[0], &pair[1]) {
            assert_eq!(*next, Command::Fetch { url: manifest_url("a", "1") });
        }
    }
    assert!(matches!(world.log.last(), Some(Command::Fetch { .. })));
}

#[test]
fn manifest_that_arrives_on_the_tenth_attempt_is_taken() {
    let mut world = World::new();
    world.fail(&manifest_url("a", "1"), 9);
    world.serve(&manifest_url("a", "1"), "{\"script\":\"x.js\"}");
    world.serve(&file_url("a", "1", "x.js"), "code");
    assert_eq!(world.resolve(&settings(), &request("a", "1")), Some(component("a", "1", "code")));
    assert_eq!(world.waits(), vec![100; 9]);
}

#[test]
fn each_file_has_its_own_ten_attempts() {
    let mut world = World::new();
    world.fail(&manifest_url("a", "1"), 2);
    world.serve(&manifest_url("a", "1"), "{\"script\":[\"x.js\",\"y.js\"]}");
    world.fail(&file_url("a", "1", "x.js"), 9);
    world.serve(&file_url("a", "1", "x.js"), "X");
    world.fail(&file_url("a", "1", "y.js"), 9);
    world.serve(&file_url("a", "1", "y.js"), "Y");
    assert_eq!(world.resolve(&settings(), &request("a", "1")), Some(component("a", "1", "XY")));
    assert_eq!(world.fetches().len(), 3 + 10 + 10);
    assert_eq!(world.waits(), vec![100; 2 + 9 + 9]);
}

#[test]
fn file_that_never_arrives_drops_the_whole_component() {
    let mut world = World::new();
    world.serve(&manifest_url("a", "1"), "{\"script\":[\"x.js\",\"y.js\",\"z.js\"]}");
    world.serve(&file_url("a", "1", "x.js"), "X");
    world.serve(&file_url("a", "1", "z.js"), "Z");
    let mut with_cache = settings();
    with_cache.use_cache = true;
    assert_eq!(world.resolve(&with_cache, &request("a", "1")), None);
    let fetches = world.fetches();
    assert_eq!(fetches.len(), 1 + 1 + 10);
    assert!(!fetches.contains(&file_url("a", "1", "z.js")));
    assert_eq!(world.cache.len(), 0);
}

#[test]
fn manifest_without_paths_drops_the_component_without_another_attempt() {
    for manifest in ["{}", "not json", "{\"script\":[]}", "{\"script\":7}"] {
        let mut world = World::new();
        world.serve(&manifest_url("a", "1"), manifest);
        world.serve(&manifest_url("a", "1"), "{\"script\":\"x.js\"}");
        assert_eq!(world.resolve(&settings(), &request("a", "1")), None);
        assert_eq!(world.fetches(), vec![manifest_url("a", "1")]);
    }
}

#[test]
fn existing_override_is_final_whatever_the_cache_holds() {
    let mut world = World::new();
    world.override_file("c", "diversity.json", "{\"script\":[\"one.js\",\"two.js\"]}");
    world.override_file("c", "one.js", "1;");
    world.override_file("c", "two.js", "2;");
    world.cache.insert(String::from("c1"), String::from("cached"));
    world.serve(&manifest_url("c", "1"), "{\"script\":\"x.js\"}");
    let mut local = settings();
    local.override_root = Some(String::from("/overrides"));
    local.use_cache = true;
    assert_eq!(world.resolve(&local, &request("c", "1")), Some(component("c", "", "1;2;")));
    assert_eq!(
        world.log,
        vec![
            Command::ProbeOverride { name: String::from("c") },
            Command::ReadOverride { name: String::from("c"), file: String::from("diversity.json") },
            Command::ReadOverride { name: String::from("c"), file: String::from("one.js") },
            Command::ReadOverride { name: String::from("c"), file: String::from("two.js") },
        ]
    );
    assert_eq!(world.cache.len(), 1);
}

#[test]
fn override_with_a_missing_file_skips_it_and_goes_on() {
    let mut world = World::new();
    world.override_file("c", "diversity.json", "{\"script\":[\"gone.js\",\"here.js\",\"lost.js\"]}");
    world.override_file("c", "here.js", "here();");
    let mut local = settings();
    local.override_root = Some(String::from("/overrides"));
    assert_eq!(world.resolve(&local, &request("c", "1")), Some(component("c", "", "here();")));
    assert!(world.fetches().is_empty());
}

#[test]
fn override_with_only_missing_files_is_empty_code() {
    let mut world = World::new();
    world.override_file("c", "diversity.json", "{\"script\":\"gone.js\"}");
    let mut local = settings();
    local.override_root = Some(String::from("/overrides"));
    let resolved = vec![world.resolve(&local, &request("c", "1"))];
    assert_eq!(resolved, vec![Some(component("c", "", ""))]);
    assert_eq!(assemble_bundle(&resolved), "BEGIN c\n\nEND c\n\n");
}

#[test]
fn override_without_a_usable_manifest_drops_the_component() {
    for manifest in [None, Some("nonsense"), Some("{\"script\":[]}")] {
        let mut world = World::new();
        world.overrides.insert(String::from("c"), HashMap::new());
        if let Some(text) = manifest {
            world.override_file("c", "diversity.json", text);
        }
        world.serve(&manifest_url("c", "1"), "{\"script\":\"x.js\"}");
        world.serve(&file_url("c", "1", "x.js"), "remote");
        let mut local = settings();
        local.override_root = Some(String::from("/overrides"));
        local.use_cache = true;
        assert_eq!(world.resolve(&local, &request("c", "1")), None);
        assert!(world.fetches().is_empty());
    }
}

#[test]
fn override_code_keeps_its_logging() {
    let mut world = World::new();
    world.override_file("c", "diversity.json", "{\"script\":\"x.js\"}");
    world.override_file("c", "x.js", LITERAL);
    let mut local = settings();
    local.override_root = Some(String::from("/overrides"));
    local.strip_logging = true;
    assert_eq!(world.resolve(&local, &request("c", "1")), Some(component("c", "", LITERAL)));
}

#[test]
fn component_without_override_goes_to_the_metadata_service() {
    let mut world = World::new();
    world.override_file("other", "diversity.json", "{\"script\":\"x.js\"}");
    world.serve(&manifest_url("c", "1"), "{\"script\":\"x.js\"}");
    world.serve(&file_url("c", "1", "x.js"), "remote");
    let mut local = settings();
    local.override_root = Some(String::from("/overrides"));
    assert_eq!(world.resolve(&local, &request("c", "1")), Some(component("c", "1", "remote")));
    assert_eq!(world.log[0], Command::ProbeOverride { name: String::from("c") });
}

#[test]
fn no_override_root_means_no_probe() {
    let mut world = World::new();
    world.override_file("c", "diversity.json", "{\"script\":\"x.js\"}");
    world.serve(&manifest_url("c", "1"), "{\"script\":\"x.js\"}");
    world.serve(&file_url("c", "1", "x.js"), "remote");
    assert_eq!(world.resolve(&settings(), &request("c", "1")), Some(component("c", "1", "remote")));
    assert_eq!(world.log[0], Command::Fetch { url: manifest_url("c", "1") });
}

#[test]
fn cached_code_is_returned_as_it_stands_without_a_fetch() {
    let mut world = World::new();
    world.cache.insert(String::from("a1"), String::from(LITERAL));
    world.serve(&manifest_url("a", "1"), "{\"script\":\"x.js\"}");
    let mut cached = settings();
    cached.use_cache = true;
    cached.strip_logging = true;
    assert_eq!(world.resolve(&cached, &request("a", "1")), Some(component("a", "1", LITERAL)));
    assert!(world.log.is_empty());
}

#[test]
fn first_resolution_fills_the_cache_and_the_second_reads_it() {
    let mut world = World::new();
    world.serve(&manifest_url("a", "1"), "{\"script\":\"x.js\"}");
    world.serve(&file_url("a", "1", "x.js"), "code");
    let mut cached = settings();
    cached.use_cache = true;
    assert_eq!(world.resolve(&cached, &request("a", "1")), Some(component("a", "1", "code")));
    assert_eq!(world.fetches().len(), 2);
    assert_eq!(world.cache.get("a1").map(|code| code.clone()), Some(String::from("code")));
    assert_eq!(world.resolve(&cached, &request("a", "1")), Some(component("a", "1", "code")));
    assert_eq!(world.fetches().len(), 2);
}

#[test]
fn cache_is_left_alone_where_caching_is_off() {
    let mut world = World::new();
    world.cache.insert(String::from("a1"), String::from("cached"));
    world.serve(&manifest_url("a", "1"), "{\"script\":\"x.js\"}");
    world.serve(&file_url("a", "1", "x.js"), "fresh");
    assert_eq!(world.resolve(&settings(), &request("a", "1")), Some(component("a", "1", "fresh")));
    assert_eq!(world.cache.get("a1").map(|code| code.clone()), Some(String::from("cached")));
}

#[test]
fn excluded_component_is_not_stored() {
    let mut world = World::new();
    for name in ["a", "b"] {
        world.serve(&manifest_url(name, "1"), "{\"script\":\"x.js\"}");
        world.serve(&file_url(name, "1", "x.js"), "code");
    }
    let mut cached = settings();
    cached.use_cache = true;
    cached.cache_exclude = vec![String::from("x"), String::from("a")];
    assert_eq!(world.resolve(&cached, &request("a", "1")), Some(component("a", "1", "code")));
    assert_eq!(world.cache.len(), 0);
    assert_eq!(world.resolve(&cached, &request("b", "1")), Some(component("b", "1", "code")));
    assert_eq!(world.cache.len(), 1);
    assert!(world.cache.contains_key("b1"));
}

#[test]
fn logging_is_stripped_once_before_the_code_is_cached() {
    let mut world = World::new();
    world.serve(&manifest_url("a", "1"), "{\"script\":[\"x.js\",\"y.js\"]}");
    world.serve(&file_url("a", "1", "x.js"), "a;console.log('Putting obj into cache");
    world.serve(&file_url("a", "1", "y.js"), " by path', pth);b;");
    let mut stripping = settings();
    stripping.use_cache = true;
    stripping.strip_logging = true;
    assert_eq!(world.resolve(&stripping, &request("a", "1")), Some(component("a", "1", "a;b;")));
    assert_eq!(world.cache.get("a1").map(|code| code.clone()), Some(String::from("a;b;")));
}

#[test]
fn logging_stays_where_stripping_is_off() {
    let mut world = World::new();
    world.serve(&manifest_url("a", "1"), "{\"script\":\"x.js\"}");
    world.serve(&file_url("a", "1", "x.js"), LITERAL);
    assert_eq!(world.resolve(&settings(), &request("a", "1")), Some(component("a", "1", LITERAL)));
}

#[test]
fn unsettled_steps_show_what_is_asked_of_the_cache() {
    let mut cached = settings();
    cached.use_cache = true;
    let lookup = Resolution::begin(&cached, &request("a", "1"));
    let waiting = match lookup {
        Step::Ask { command, next } => {
            assert_eq!(
                command,
                Command::Lookup { name: String::from("a"), version: String::from("1") }
            );
            assert_eq!(next.name(), "a");
            assert_eq!(next.version(), "1");
            next
        }
        other => panic!("unexpected step {:?}", other),
    };
    let fetching = match waiting.step(&cached, Reply::Cached(None)) {
        Step::Ask { command, next } => {
            assert_eq!(command, Command::Fetch { url: manifest_url("a", "1") });
            next
        }
        other => panic!("unexpected step {:?}", other),
    };
    let file = match fetching.step(&cached, Reply::Fetched(Some(String::from("{\"script\":\"x.js\"}")))) {
        Step::Ask { command, next } => {
            assert_eq!(command, Command::Fetch { url: file_url("a", "1", "x.js") });
            next
        }
        other => panic!("unexpected step {:?}", other),
    };
    let storing = match file.step(&cached, Reply::Fetched(Some(String::from("code")))) {
        Step::Ask { command, next } => {
            assert_eq!(
                command,
                Command::Store {
                    name: String::from("a"),
                    version: String::from("1"),
                    code: String::from("code"),
                }
            );
            next
        }
        other => panic!("unexpected step {:?}", other),
    };
    match storing.step(&cached, Reply::Stored) {
        Step::Done(done) => assert_eq!(done, Some(component("a", "1", "code"))),
        other => panic!("unexpected step {:?}", other),
    }
}

#[test]
fn cache_hit_on_the_unsettled_step_ends_the_resolution() {
    let mut cached = settings();
    cached.use_cache = true;
    match Resolution::begin(&cached, &request("a", "1")) {
        Step::Ask { next, .. } => match next.step(&cached, Reply::Cached(Some(String::from("kept")))) {
            Step::Done(done) => assert_eq!(done, Some(component("a", "1", "kept"))),
            other => panic!("unexpected step {:?}", other),
        },
        other => panic!("unexpected step {:?}", other),
    }
}

#[test]
fn reply_that_answers_nothing_asked_ends_the_resolution() {
    match Resolution::begin(&settings(), &request("a", "1")) {
        Step::Ask { next, .. } => {
            assert!(matches!(next.step(&settings(), Reply::Exists(true)), Step::Done(None)));
        }
        other => panic!("unexpected step {:?}", other),
    }
    let mut local = settings();
    local.override_root = Some(String::from("/overrides"));
    match Resolution::begin(&local, &request("a", "1")) {
        Step::Ask { next, .. } => {
            assert!(matches!(
                next.step(&local, Reply::Fetched(Some(String::from("x")))),
                Step::Done(None)
            ));
        }
        other => panic!("unexpected step {:?}", other),
    }
}
