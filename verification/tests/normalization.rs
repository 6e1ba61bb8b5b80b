use path_normalize::{
    normalize_path, normalize_path_with_options, Failure, NormalizeMode, NormalizeOptions,
    Pending, ReservedNameMatcher, Request, Step,
};

const MODES: [NormalizeMode; 3] =
    [NormalizeMode::Strict, NormalizeMode::Hybrid, NormalizeMode::Lexical];

fn begin(path: &str, mode: NormalizeMode) -> Pending {
    let options = NormalizeOptions::new(mode);
    let step: Step<u32> = normalize_path_with_options(path, &options, &ReservedNameMatcher::Inert);
    match step {
        Step::Ask(pending) => pending,
        Step::Done(result) => panic!("the platform was not asked: {result:?}"),
    }
}

fn path(text: &str) -> Result<String, Failure<u32>> {
    Ok(String::from(text))
}

#[test]
fn lexical_mode_resolves_a_missing_path_against_the_working_directory() {
    let pending = begin("./src/../lib/mod.rs", NormalizeMode::Lexical);
    assert_eq!(pending.request(), Request::InputPath);
    let pending = match pending.advance(Err(Failure::NotFound(2u32))) {
        Step::Ask(pending) => pending,
        Step::Done(result) => panic!("no fallback: {result:?}"),
    };
    assert_eq!(pending.request(), Request::WorkingDirectory);
    assert_eq!(pending.path(), "./src/../lib/mod.rs");
    assert_eq!(
        pending.advance(path("/home/user/project")),
        Step::Done(path("/home/user/project/lib/mod.rs"))
    );
}

#[test]
fn con_is_returned_in_upper_case_in_every_mode() {
    for mode in MODES {
        let options = NormalizeOptions::new(mode);
        let step: Step<u32> =
            normalize_path_with_options("con", &options, &ReservedNameMatcher::DosDevices);
        assert_eq!(step, Step::Done(path("CON")));
    }
    let step: Step<u32> = normalize_path("con", &ReservedNameMatcher::DosDevices);
    assert_eq!(step, Step::Done(path("CON")));
}

#[test]
fn every_reserved_name_is_returned_in_upper_case() {
    for name in path_normalize::RESERVED_NAMES {
        for mode in MODES {
            let options = NormalizeOptions::new(mode);
            let step: Step<u32> = normalize_path_with_options(
                &name.to_ascii_lowercase(),
                &options,
                &ReservedNameMatcher::DosDevices,
            );
            assert_eq!(step, Step::Done(path(name)));
        }
    }
}

#[test]
fn a_platform_without_reserved_names_is_asked_about_con() {
    let pending = begin("con", NormalizeMode::Lexical);
    assert_eq!(pending.request(), Request::InputPath);
    assert_eq!(pending.path(), "con");
}

#[test]
fn the_first_request_is_for_the_input_path_in_every_mode() {
    for mode in MODES {
        let pending = begin("some/path", mode);
        assert_eq!(pending.request(), Request::InputPath);
        assert_eq!(pending.path(), "some/path");
        assert_eq!(pending.mode(), mode);
    }
}

#[test]
fn an_existing_path_is_returned_as_the_platform_resolved_it() {
    for mode in MODES {
        let done: Step<u32> = begin("link/../file", mode).advance(path("/data/file"));
        assert_eq!(done, Step::Done(path("/data/file")));
    }
}

#[test]
fn strict_mode_fails_on_a_missing_path() {
    let done = begin("missing", NormalizeMode::Strict).advance(Err(Failure::NotFound(2u32)));
    assert_eq!(done, Step::Done(Err(Failure::NotFound(2))));
}

#[test]
fn hybrid_mode_falls_back_as_lexical_mode_does() {
    for mode in [NormalizeMode::Hybrid, NormalizeMode::Lexical] {
        let pending = match begin("../../x", mode).advance(Err(Failure::NotFound(2u32))) {
            Step::Ask(pending) => pending,
            Step::Done(result) => panic!("no fallback: {result:?}"),
        };
        assert_eq!(pending.request(), Request::WorkingDirectory);
        assert_eq!(pending.mode(), mode);
        assert_eq!(pending.advance(path("/a/b/c")), Step::Done(path("/a/x")));
    }
}

#[test]
fn any_other_failure_is_returned_in_every_mode() {
    for mode in MODES {
        let done = begin("secret/file", mode).advance(Err(Failure::Other(13u32)));
        assert_eq!(done, Step::Done(Err(Failure::Other(13))));
    }
}

#[test]
fn a_failure_of_the_working_directory_is_returned() {
    for failure in [Failure::NotFound(2u32), Failure::Other(13u32)] {
        let pending = match begin("missing", NormalizeMode::Lexical).advance(Err(Failure::NotFound(7u32))) {
            Step::Ask(pending) => pending,
            Step::Done(result) => panic!("no fallback: {result:?}"),
        };
        let expected = match &failure {
            Failure::NotFound(code) => Failure::NotFound(*code),
            Failure::Other(code) => Failure::Other(*code),
        };
        assert_eq!(pending.advance(Err(failure)), Step::Done(Err(expected)));
    }
}

#[test]
fn parents_beyond_the_root_are_absorbed_in_the_fallback() {
    let pending = match begin("../../x", NormalizeMode::Lexical).advance(Err(Failure::NotFound(2u32))) {
        Step::Ask(pending) => pending,
        Step::Done(result) => panic!("no fallback: {result:?}"),
    };
    assert_eq!(pending.advance(path("/")), Step::Done(path("/x")));
}

#[test]
fn default_options_give_what_no_options_give() {
    for matcher in [ReservedNameMatcher::DosDevices, ReservedNameMatcher::Inert] {
        for text in ["con", "a/b", "", "../x"] {
            let with: Step<u32> =
                normalize_path_with_options(text, &NormalizeOptions::default(), &matcher);
            let without: Step<u32> = normalize_path(text, &matcher);
            assert_eq!(with, without);
        }
    }
    let step: Step<u32> = normalize_path("a/b", &ReservedNameMatcher::Inert);
    match step {
        Step::Ask(pending) => assert_eq!(pending.mode(), NormalizeMode::Lexical),
        Step::Done(result) => panic!("the platform was not asked: {result:?}"),
    }
}

#[test]
fn a_failure_gives_back_the_error_of_the_platform() {
    assert_eq!(Failure::NotFound("gone").into_source(), "gone");
    assert_eq!(Failure::Other("denied").into_source(), "denied");
}
